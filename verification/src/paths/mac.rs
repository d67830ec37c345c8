//! Installation discovery on macOS.
//!
//! The system and user `Applications` directories are searched for the four
//! known bundle names; a candidate counts only when its `Contents/Resources`
//! directory exists.

use vstd::prelude::*;
use vstd::string::StringExecFns;
use crate::fs_model::FsTree;
use crate::paths::branch::{branch_of, DiscordBranch, DiscordLocation};
use crate::paths::shared::{
    get_resource_subpath,
    is_location_openasar,
    is_location_patched,
    openasar_probe,
    patched_probe,
    resource_subpath,
};
use crate::platform::Platform;
use crate::text::{get_last_path_component, join_path, join_path_seq, last_component};

verus! {

/// A macOS candidate is a real bundle: the directory exists and holds a
/// `Contents/Resources` directory.
pub open spec fn mac_valid_candidate(tree: FsTree, p: Seq<char>) -> bool {
    tree.dirs().contains(p) && tree.dirs().contains(
        join_path_seq(p, resource_subpath(Platform::MacOs)),
    )
}

/// The fields a macOS scan fills for a bundle at `p`. Flatpak and
/// system-Electron installations do not exist on macOS.
pub open spec fn mac_location_matches(loc: DiscordLocation, p: Seq<char>, tree: FsTree) -> bool {
    &&& loc.name@ == last_component(p)
    &&& loc.path@ == p
    &&& loc.branch == branch_of(last_component(p))
    &&& loc.is_flatpak == false
    &&& loc.is_system_electron == false
    &&& loc.patched == patched_probe(tree, p, false, Platform::MacOs)
    &&& loc.openasar == openasar_probe(tree, p, loc.patched, Platform::MacOs)
}

/// Classifies the bundle at `full_path`, accepting it only when its
/// `Contents/Resources` directory exists.
pub fn parse_discord_location(tree: &FsTree, full_path: &str) -> (r: Option<DiscordLocation>)
    requires
        tree.wf(),
    ensures
        match r {
            Some(loc) => tree.dirs().contains(
                join_path_seq(full_path@, resource_subpath(Platform::MacOs)),
            ) && mac_location_matches(loc, full_path@, *tree),
            None => !tree.dirs().contains(
                join_path_seq(full_path@, resource_subpath(Platform::MacOs)),
            ),
        },
{
    let resources = join_path(full_path, get_resource_subpath(Platform::MacOs));
    if !tree.has_dir(resources.as_str()) {
        return None;
    }

    let mut name = String::new();
    name.append(get_last_path_component(full_path));
    let sys = false;
    let patched = is_location_patched(tree, full_path, &sys, Platform::MacOs);
    let openasar = is_location_openasar(tree, full_path, patched, Platform::MacOs);
    let branch = DiscordBranch::from_path(name.as_str());

    let mut path = String::new();
    path.append(full_path);

    Some(
        DiscordLocation {
            name,
            path,
            branch,
            patched,
            openasar,
            is_flatpak: false,
            is_system_electron: false,
        },
    )
}

/// The fixed list of known bundle names.
pub open spec fn mac_location_names() -> Seq<Seq<char>> {
    seq![
        "Discord.app"@,
        "Discord Canary.app"@,
        "Discord PTB.app"@,
        "Discord Development.app"@,
    ]
}

/// Returns the known bundle names, in scan order.
pub fn get_discord_location_names() -> (r: Vec<&'static str>)
    ensures
        r@.len() == mac_location_names().len(),
        forall|i: int| 0 <= i < r@.len() ==> r@[i]@ == mac_location_names()[i],
{
    let mut names: Vec<&'static str> = Vec::new();
    names.push("Discord.app");
    names.push("Discord Canary.app");
    names.push("Discord PTB.app");
    names.push("Discord Development.app");
    names
}

/// The two root directories a macOS scan searches.
pub open spec fn mac_scan_roots(home: Seq<char>) -> Seq<Seq<char>> {
    seq!["/Applications"@, join_path_seq(home, "Applications"@)]
}

/// Returns the root directories a macOS scan searches, in order.
pub fn get_scan_roots(home: &str) -> (r: Vec<String>)
    ensures
        r@.len() == mac_scan_roots(home@).len(),
        forall|i: int| 0 <= i < r@.len() ==> r@[i]@ == mac_scan_roots(home@)[i],
{
    let mut roots: Vec<String> = Vec::new();
    roots.push(String::from_str("/Applications"));
    roots.push(join_path(home, "Applications"));
    roots
}

/// The valid bundles under one root that exist in `tree`, from name index
/// `j` on, in scan order.
pub open spec fn hits_under_from(tree: FsTree, root: Seq<char>, names: Seq<Seq<char>>, j: int) -> Seq<
    Seq<char>,
>
    decreases names.len() - j,
{
    if j < 0 || j >= names.len() {
        Seq::<Seq<char>>::empty()
    } else {
        let p = join_path_seq(root, names[j]);
        (if mac_valid_candidate(tree, p) {
            seq![p]
        } else {
            Seq::<Seq<char>>::empty()
        }) + hits_under_from(tree, root, names, j + 1)
    }
}

/// The valid bundles that exist in `tree`, from root index `i` on, in scan
/// order.
pub open spec fn scan_hits_from(
    tree: FsTree,
    roots: Seq<Seq<char>>,
    names: Seq<Seq<char>>,
    i: int,
) -> Seq<Seq<char>>
    decreases roots.len() - i,
{
    if i < 0 || i >= roots.len() {
        Seq::<Seq<char>>::empty()
    } else {
        hits_under_from(tree, roots[i], names, 0) + scan_hits_from(tree, roots, names, i + 1)
    }
}

/// Every valid bundle a macOS scan of `tree` finds, in scan order.
pub open spec fn mac_scan_hits(tree: FsTree, home: Seq<char>) -> Seq<Seq<char>> {
    scan_hits_from(tree, mac_scan_roots(home), mac_location_names(), 0)
}

/// Each location classifies the corresponding bundle, in order.
pub open spec fn locations_match_hits(
    locs: Seq<DiscordLocation>,
    hits: Seq<Seq<char>>,
    tree: FsTree,
) -> bool {
    locs.len() == hits.len() && forall|i: int|
        0 <= i < locs.len() ==> mac_location_matches(#[trigger] locs[i], hits[i], tree)
}

/// Classifies every valid bundle under one root, from name index `j` on.
fn locations_under_root(
    tree: &FsTree,
    root: &str,
    names: &Vec<&'static str>,
    j: usize,
) -> (r: Vec<DiscordLocation>)
    requires
        tree.wf(),
        j <= names@.len(),
        names@.len() == mac_location_names().len(),
        forall|k: int| 0 <= k < names@.len() ==> names@[k]@ == mac_location_names()[k],
    ensures
        locations_match_hits(
            r@,
            hits_under_from(*tree, root@, mac_location_names(), j as int),
            *tree,
        ),
    decreases names@.len() - j,
{
    let ghost hits = hits_under_from(*tree, root@, mac_location_names(), j as int);
    if j == names.len() {
        let r: Vec<DiscordLocation> = Vec::new();
        return r;
    }
    let full = join_path(root, names[j]);
    let rest = locations_under_root(tree, root, names, j + 1);
    let ghost hrest = hits_under_from(*tree, root@, mac_location_names(), j + 1);
    if tree.has_dir(full.as_str()) {
        if let Some(loc) = parse_discord_location(tree, full.as_str()) {
            let ghost rest_view = rest@;
            let mut out: Vec<DiscordLocation> = Vec::new();
            out.push(loc);
            let mut tail = rest;
            out.append(&mut tail);
            proof {
                assert(hits =~= seq![full@] + hrest);
                assert(out@ =~= seq![loc] + rest_view);
                assert forall|i: int| 0 <= i < out@.len() implies mac_location_matches(
                    #[trigger] out@[i],
                    hits[i],
                    *tree,
                ) by {
                    if i == 0 {
                        assert(out@[0] == loc);
                        assert(hits[0] == full@);
                    } else {
                        assert(out@[i] == rest_view[i - 1]);
                        assert(hits[i] == hrest[i - 1]);
                    }
                }
            }
            return out;
        }
        proof {
            assert(hits =~= hrest);
        }
        rest
    } else {
        proof {
            assert(hits =~= hrest);
        }
        rest
    }
}

/// Classifies every valid bundle, from root index `i` on.
fn locations_from_roots(
    tree: &FsTree,
    roots: &Vec<String>,
    names: &Vec<&'static str>,
    i: usize,
) -> (r: Vec<DiscordLocation>)
    requires
        tree.wf(),
        i <= roots@.len(),
        names@.len() == mac_location_names().len(),
        forall|k: int| 0 <= k < names@.len() ==> names@[k]@ == mac_location_names()[k],
    ensures
        locations_match_hits(
            r@,
            scan_hits_from(
                *tree,
                roots@.map_values(|s: String| s@),
                mac_location_names(),
                i as int,
            ),
            *tree,
        ),
    decreases roots@.len() - i,
{
    let ghost rseq = roots@.map_values(|s: String| s@);
    let ghost hits = scan_hits_from(*tree, rseq, mac_location_names(), i as int);
    if i == roots.len() {
        let r: Vec<DiscordLocation> = Vec::new();
        return r;
    }
    proof {
        assert(rseq[i as int] == roots@[i as int]@);
    }
    let mut here = locations_under_root(tree, roots[i].as_str(), names, 0);
    let ghost here_view = here@;
    let mut rest = locations_from_roots(tree, roots, names, i + 1);
    let ghost rest_view = rest@;
    let ghost hhere = hits_under_from(*tree, rseq[i as int], mac_location_names(), 0);
    let ghost hrest = scan_hits_from(*tree, rseq, mac_location_names(), i + 1);
    here.append(&mut rest);
    proof {
        assert(hits =~= hhere + hrest);
        assert(here@ =~= here_view + rest_view);
        assert forall|k: int| 0 <= k < here@.len() implies mac_location_matches(
            #[trigger] here@[k],
            hits[k],
            *tree,
        ) by {
            if k < here_view.len() {
                assert(here@[k] == here_view[k]);
                assert(hits[k] == hhere[k]);
            } else {
                assert(here@[k] == rest_view[k - here_view.len()]);
                assert(hits[k] == hrest[k - here_view.len()]);
            }
        }
    }
    here
}

/// Scans `/Applications` and the user's `Applications` directory for the
/// known bundles and classifies every valid one, in scan order. Returns
/// nothing when no valid bundle exists.
pub fn get_discord_locations(tree: &FsTree, home: &str) -> (r: Option<Vec<DiscordLocation>>)
    requires
        tree.wf(),
    ensures
        ({
            let hits = mac_scan_hits(*tree, home@);
            match r {
                Some(v) => hits.len() > 0 && locations_match_hits(v@, hits, *tree),
                None => hits.len() == 0,
            }
        }),
{
    let names = get_discord_location_names();
    let roots = get_scan_roots(home);
    proof {
        assert(roots@.map_values(|s: String| s@) =~= mac_scan_roots(home@));
    }
    let locs = locations_from_roots(tree, &roots, &names, 0);
    if locs.len() == 0 {
        None
    } else {
        Some(locs)
    }
}

/// Returns and names the data directory for the given configuration name:
/// `<home>/Library/Application Support/<data_dir>/dist`. The caller creates
/// it on disk.
pub fn get_data_path(home: &str, data_dir: &str) -> (r: String)
    ensures
        r@ == join_path_seq(
            join_path_seq(
                join_path_seq(join_path_seq(home@, "Library"@), "Application Support"@),
                data_dir@,
            ),
            "dist"@,
        ),
{
    let lib = join_path(home, "Library");
    let support = join_path(lib.as_str(), "Application Support");
    let dir = join_path(support.as_str(), data_dir);
    join_path(dir.as_str(), "dist")
}

/// The resource subdirectory of a macOS bundle.
pub fn get_discord_resource_location() -> (r: &'static str)
    ensures
        r@ == resource_subpath(Platform::MacOs),
{
    "Contents/Resources"
}

} // verus!
