//! Installation discovery on Windows.
//!
//! The four known directory names are searched under the local application
//! data directory. Each one holds versioned `app-*` subdirectories; the one
//! with the lexicographically greatest name — plain string comparison, not
//! version-aware — among those that hold a `resources` directory is the
//! active application path that all further resource resolution uses.

use vstd::prelude::*;
use vstd::string::StringExecFns;
use crate::fs_model::FsTree;
use crate::paths::branch::{branch_of, DiscordBranch, DiscordLocation};
use crate::paths::shared::{
    is_location_openasar,
    is_location_patched,
    openasar_probe,
    patched_probe,
    resource_subpath,
};
use crate::platform::Platform;
use crate::text::{
    child_name,
    get_child_name,
    get_last_path_component,
    is_child_path,
    join_path,
    join_path_seq,
    last_component,
    lemma_lex_lt_irrefl,
    lemma_lex_lt_total,
    lemma_lex_lt_trans,
    lex_lt,
    starts_with_seq,
    str_lt,
    str_starts_with,
};

verus! {

/// `d` is a versioned application directory of `p`: a child directory whose
/// name starts with `app-` and that holds a `resources` directory.
pub open spec fn versioned_app_dir(tree: FsTree, p: Seq<char>, d: Seq<char>) -> bool {
    &&& is_child_path(d, p)
    &&& starts_with_seq(child_name(d, p), "app-"@)
    &&& tree.dirs().contains(d)
    &&& tree.dirs().contains(join_path_seq(d, "resources"@))
}

/// Some directory of `tree` is a versioned application directory of `p`.
pub open spec fn has_versioned_app_dir(tree: FsTree, p: Seq<char>) -> bool {
    exists|i: int| 0 <= i < tree.dir_list().len() && versioned_app_dir(tree, p, tree.dir_list()[i])
}

/// `a` is the versioned application directory of `p` with the greatest name.
pub open spec fn greatest_app_dir(tree: FsTree, p: Seq<char>, a: Seq<char>) -> bool {
    &&& versioned_app_dir(tree, p, a)
    &&& forall|i: int|
        0 <= i < tree.dir_list().len() && versioned_app_dir(tree, p, #[trigger] tree.dir_list()[i])
            ==> !lex_lt(child_name(a, p), child_name(tree.dir_list()[i], p))
}

/// The fields a Windows scan fills for a candidate at `p` whose active
/// application path is `app`.
pub open spec fn windows_location_matches(
    loc: DiscordLocation,
    p: Seq<char>,
    app: Seq<char>,
    tree: FsTree,
) -> bool {
    &&& loc.name@ == last_component(p)
    &&& loc.path@ == app
    &&& loc.branch == branch_of(last_component(p))
    &&& loc.is_flatpak == false
    &&& loc.is_system_electron == false
    &&& loc.patched == patched_probe(tree, app, false, Platform::Windows)
    &&& loc.openasar == openasar_probe(tree, app, loc.patched, Platform::Windows)
}

/// Classifies the installation at `full_path`: among the versioned `app-*`
/// subdirectories with resources, the one with the lexicographically
/// greatest name — plain string comparison — becomes the active application
/// path. A candidate without any such subdirectory is rejected.
pub fn parse_discord_location(tree: &FsTree, full_path: &str) -> (r: Option<DiscordLocation>)
    requires
        tree.wf(),
    ensures
        match r {
            Some(loc) => has_versioned_app_dir(*tree, full_path@) && greatest_app_dir(
                *tree,
                full_path@,
                loc.path@,
            ) && windows_location_matches(loc, full_path@, loc.path@, *tree),
            None => !has_versioned_app_dir(*tree, full_path@),
        },
{
    let mut best_path = String::new();
    let mut best_name = String::new();
    let mut have = false;

    let count = tree.dir_count();
    let mut i: usize = 0;
    while i < count
        invariant
            tree.wf(),
            count == tree.dir_list().len(),
            i <= count,
            have == exists|k: int|
                0 <= k < i && versioned_app_dir(*tree, full_path@, #[trigger] tree.dir_list()[k]),
            have ==> versioned_app_dir(*tree, full_path@, best_path@) && best_name@ == child_name(
                best_path@,
                full_path@,
            ),
            forall|k: int|
                0 <= k < i && versioned_app_dir(*tree, full_path@, #[trigger] tree.dir_list()[k])
                    ==> !lex_lt(best_name@, child_name(tree.dir_list()[k], full_path@)),
        decreases count - i,
    {
        let d = tree.dir_at(i);
        let mut app_dir = String::new();
        app_dir.append(d.as_str());
        let mut matched = false;
        let mut app_name = String::new();
        if let Some(n) = get_child_name(app_dir.as_str(), full_path) {
            if str_starts_with(n, "app-") {
                matched = true;
                app_name.append(n);
            }
        }
        if matched {
            let resources = join_path(app_dir.as_str(), "resources");
            if tree.has_dir(resources.as_str()) {
                proof {
                    assert(tree.dir_list().contains(tree.dir_list()[i as int]));
                    assert(versioned_app_dir(*tree, full_path@, tree.dir_list()[i as int]));
                }
                if !have || str_lt(best_name.as_str(), app_name.as_str()) {
                    proof {
                        if have {
                            assert forall|k: int|
                                0 <= k < i + 1 && versioned_app_dir(
                                    *tree,
                                    full_path@,
                                    #[trigger] tree.dir_list()[k],
                                ) implies !lex_lt(
                                app_name@,
                                child_name(tree.dir_list()[k], full_path@),
                            ) by {
                                if k < i {
                                    let kn = child_name(tree.dir_list()[k], full_path@);
                                    if lex_lt(app_name@, kn) {
                                        lemma_lex_lt_trans(best_name@, app_name@, kn);
                                    }
                                } else {
                                    lemma_lex_lt_irrefl(app_name@);
                                }
                            }
                        } else {
                            assert forall|k: int|
                                0 <= k < i + 1 && versioned_app_dir(
                                    *tree,
                                    full_path@,
                                    #[trigger] tree.dir_list()[k],
                                ) implies !lex_lt(
                                app_name@,
                                child_name(tree.dir_list()[k], full_path@),
                            ) by {
                                lemma_lex_lt_irrefl(app_name@);
                            }
                        }
                    }
                    best_path = app_dir;
                    best_name = app_name;
                    have = true;
                } else {
                    proof {
                        lemma_lex_lt_total(best_name@, app_name@);
                        if best_name@ == app_name@ {
                            lemma_lex_lt_irrefl(app_name@);
                        }
                    }
                }
            } else {
                proof {
                    assert(!versioned_app_dir(*tree, full_path@, tree.dir_list()[i as int]));
                }
            }
        } else {
            proof {
                assert(!versioned_app_dir(*tree, full_path@, tree.dir_list()[i as int]));
            }
        }
        i = i + 1;
    }

    if !have {
        return None;
    }

    let mut name = String::new();
    name.append(get_last_path_component(full_path));
    let sys = false;
    let patched = is_location_patched(tree, best_path.as_str(), &sys, Platform::Windows);
    let openasar = is_location_openasar(tree, best_path.as_str(), patched, Platform::Windows);
    let branch = DiscordBranch::from_path(name.as_str());

    Some(
        DiscordLocation {
            name,
            path: best_path,
            branch,
            patched,
            openasar,
            is_flatpak: false,
            is_system_electron: false,
        },
    )
}

/// The fixed list of known directory names.
pub open spec fn windows_location_names() -> Seq<Seq<char>> {
    seq!["Discord"@, "DiscordPTB"@, "DiscordCanary"@, "DiscordDevelopment"@]
}

/// Returns the known directory names, in scan order.
pub fn get_discord_location_names() -> (r: Vec<&'static str>)
    ensures
        r@.len() == windows_location_names().len(),
        forall|i: int| 0 <= i < r@.len() ==> r@[i]@ == windows_location_names()[i],
{
    let mut names: Vec<&'static str> = Vec::new();
    names.push("Discord");
    names.push("DiscordPTB");
    names.push("DiscordCanary");
    names.push("DiscordDevelopment");
    names
}

/// A Windows candidate is usable when the directory exists and one of its
/// `app-*` children holds a `resources` directory.
pub open spec fn windows_valid_candidate(tree: FsTree, p: Seq<char>) -> bool {
    tree.dirs().contains(p) && has_versioned_app_dir(tree, p)
}

/// The usable candidates under the application data root, from name index
/// `j` on, in scan order.
pub open spec fn hits_under_from(tree: FsTree, root: Seq<char>, names: Seq<Seq<char>>, j: int) -> Seq<
    Seq<char>,
>
    decreases names.len() - j,
{
    if j < 0 || j >= names.len() {
        Seq::<Seq<char>>::empty()
    } else {
        let p = join_path_seq(root, names[j]);
        (if windows_valid_candidate(tree, p) {
            seq![p]
        } else {
            Seq::<Seq<char>>::empty()
        }) + hits_under_from(tree, root, names, j + 1)
    }
}

/// Every usable candidate a Windows scan of `tree` finds under `appdata`,
/// in scan order.
pub open spec fn windows_scan_hits(tree: FsTree, appdata: Seq<char>) -> Seq<Seq<char>> {
    hits_under_from(tree, appdata, windows_location_names(), 0)
}

/// Each location classifies the corresponding candidate, in order; its path
/// is the candidate's greatest versioned application directory.
pub open spec fn locations_match_hits(
    locs: Seq<DiscordLocation>,
    hits: Seq<Seq<char>>,
    tree: FsTree,
) -> bool {
    locs.len() == hits.len() && forall|i: int|
        0 <= i < locs.len() ==> greatest_app_dir(tree, hits[i], (#[trigger] locs[i]).path@)
            && windows_location_matches(locs[i], hits[i], locs[i].path@, tree)
}

/// Classifies every usable candidate, from name index `j` on.
fn locations_under_root(
    tree: &FsTree,
    root: &str,
    names: &Vec<&'static str>,
    j: usize,
) -> (r: Vec<DiscordLocation>)
    requires
        tree.wf(),
        j <= names@.len(),
        names@.len() == windows_location_names().len(),
        forall|k: int| 0 <= k < names@.len() ==> names@[k]@ == windows_location_names()[k],
    ensures
        locations_match_hits(
            r@,
            hits_under_from(*tree, root@, windows_location_names(), j as int),
            *tree,
        ),
    decreases names@.len() - j,
{
    let ghost hits = hits_under_from(*tree, root@, windows_location_names(), j as int);
    if j == names.len() {
        let r: Vec<DiscordLocation> = Vec::new();
        return r;
    }
    let full = join_path(root, names[j]);
    let rest = locations_under_root(tree, root, names, j + 1);
    let ghost hrest = hits_under_from(*tree, root@, windows_location_names(), j + 1);
    if tree.has_dir(full.as_str()) {
        if let Some(loc) = parse_discord_location(tree, full.as_str()) {
            let ghost rest_view = rest@;
            let mut out: Vec<DiscordLocation> = Vec::new();
            out.push(loc);
            let mut tail = rest;
            out.append(&mut tail);
            proof {
                assert(hits =~= seq![full@] + hrest);
                assert(out@ =~= seq![loc] + rest_view);
                assert forall|i: int| 0 <= i < out@.len() implies greatest_app_dir(
                    *tree,
                    hits[i],
                    (#[trigger] out@[i]).path@,
                ) && windows_location_matches(out@[i], hits[i], out@[i].path@, *tree) by {
                    if i == 0 {
                        assert(out@[0] == loc);
                        assert(hits[0] == full@);
                    } else {
                        assert(out@[i] == rest_view[i - 1]);
                        assert(hits[i] == hrest[i - 1]);
                    }
                }
            }
            return out;
        }
        proof {
            assert(hits =~= hrest);
        }
        rest
    } else {
        proof {
            assert(hits =~= hrest);
        }
        rest
    }
}

/// Scans the local application data directory for the known names and
/// classifies every usable installation, in scan order. Returns nothing
/// when no usable candidate exists.
pub fn get_discord_locations(tree: &FsTree, appdata: &str) -> (r: Option<Vec<DiscordLocation>>)
    requires
        tree.wf(),
    ensures
        ({
            let hits = windows_scan_hits(*tree, appdata@);
            match r {
                Some(v) => hits.len() > 0 && locations_match_hits(v@, hits, *tree),
                None => hits.len() == 0,
            }
        }),
{
    let names = get_discord_location_names();
    let locs = locations_under_root(tree, appdata, &names, 0);
    if locs.len() == 0 {
        None
    } else {
        Some(locs)
    }
}

/// Returns and names the data directory for the given configuration name:
/// `<appdata>/<data_dir>/dist`. The caller creates it on disk.
pub fn get_data_path(appdata: &str, data_dir: &str) -> (r: String)
    ensures
        r@ == join_path_seq(join_path_seq(appdata@, data_dir@), "dist"@),
{
    let dir = join_path(appdata, data_dir);
    join_path(dir.as_str(), "dist")
}

/// The resource subdirectory of a Windows installation.
pub fn get_discord_resource_location() -> (r: &'static str)
    ensures
        r@ == resource_subpath(Platform::Windows),
{
    "resources"
}

/// The path Windows leaves a broken relocated installation at:
/// `<program_data>/<username>/<name>`. The caller checks whether it exists;
/// its existence marks the installation as moved.
pub fn scuffed_install_path(program_data: &str, username: &str, name: &str) -> (r: String)
    ensures
        r@ == join_path_seq(join_path_seq(program_data@, username@), name@),
{
    let dir = join_path(program_data, username);
    join_path(dir.as_str(), name)
}

} // verus!
