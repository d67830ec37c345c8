//! Installation discovery on Linux.
//!
//! A fixed, ordered list of root directories is searched for a fixed list of
//! known directory names. A candidate matched under its Flatpak
//! reverse-domain identifier has its real installation directory derived
//! from the identifier before probing; a candidate under any other name is
//! probed where it stands, whatever root it sits under, so the scan is total
//! and never fails.

use vstd::prelude::*;
use vstd::string::{StringExecFns, StrSliceExecFns};
use crate::fs_model::FsTree;
use crate::paths::branch::{branch_of, DiscordBranch, DiscordLocation};
use crate::paths::shared::{
    flatpak_probe,
    is_location_flatpak,
    is_location_openasar,
    is_location_patched,
    is_location_system_electron,
    openasar_probe,
    patched_probe,
    resource_subpath,
    system_electron_probe,
};
use crate::platform::Platform;
use crate::text::{
    get_last_path_component,
    join_path,
    join_path_seq,
    last_component,
    lower_seq,
    push_char,
    starts_with_seq,
    str_eq,
    str_starts_with,
    to_ascii_lower,
};

verus! {

/// The reverse-domain prefix of the Flatpak identifiers.
pub open spec fn flatpak_prefix() -> Seq<char> {
    "com.discordapp."@
}

/// The identifier with the reverse-domain prefix stripped and lower-cased;
/// empty when the prefix is missing.
pub open spec fn stripped_flatpak(base: Seq<char>) -> Seq<char> {
    if starts_with_seq(base, flatpak_prefix()) {
        lower_seq(base.skip(flatpak_prefix().len() as int))
    } else {
        Seq::<char>::empty()
    }
}

/// The name is a Flatpak reverse-domain identifier the derivation can
/// resolve: it carries the prefix, and the stripped, lower-cased name is
/// `discord` itself or long enough for the hyphen insertion.
pub open spec fn flatpak_name_ok(base: Seq<char>) -> bool {
    starts_with_seq(base, flatpak_prefix()) && (stripped_flatpak(base) == "discord"@
        || stripped_flatpak(base).len() >= 7)
}

/// Whether a directory name is a Flatpak reverse-domain identifier the
/// derivation can resolve.
pub fn is_resolvable_flatpak_name(name: &str) -> (r: bool)
    ensures
        r == flatpak_name_ok(name@),
{
    proof {
        reveal_strlit("com.discordapp.");
    }
    if !str_starts_with(name, "com.discordapp.") {
        return false;
    }
    let len = name.unicode_len();
    let stripped = name.substring_char(15, len);
    let lower = to_ascii_lower(stripped);
    proof {
        assert(lower@ == stripped_flatpak(name@));
    }
    if str_eq(lower.as_str(), "discord") {
        true
    } else {
        lower.as_str().unicode_len() >= 7
    }
}

/// The directory name a Flatpak identifier resolves to: the stripped,
/// lower-cased name — `discord` as it is, every other name with a hyphen
/// inserted after its seventh character.
pub open spec fn flatpak_dir_name(base: Seq<char>) -> Seq<char> {
    let st = stripped_flatpak(base);
    if st == "discord"@ {
        st
    } else {
        st.subrange(0, 7) + seq!['-'] + st.skip(7)
    }
}

/// Derives the installation directory name from a Flatpak reverse-domain
/// identifier: strip the prefix, lower-case, and — unless the name is
/// exactly `discord` — insert a hyphen after the seventh character
/// (`com.discordapp.DiscordPTB` becomes `discord-ptb`).
pub fn flatpak_install_dir_name(base: &str) -> (r: String)
    requires
        flatpak_name_ok(base@),
    ensures
        r@ == flatpak_dir_name(base@),
{
    proof {
        reveal_strlit("com.discordapp.");
    }
    let len = base.unicode_len();
    let stripped: &str = if str_starts_with(base, "com.discordapp.") {
        base.substring_char(15, len)
    } else {
        ""
    };
    proof {
        reveal_strlit("");
        assert(stripped@ =~= if starts_with_seq(base@, flatpak_prefix()) {
            base@.skip(15)
        } else {
            Seq::<char>::empty()
        });
    }
    let lower = to_ascii_lower(stripped);
    proof {
        assert(lower_seq(Seq::<char>::empty()) =~= Seq::<char>::empty());
        assert(lower@ == stripped_flatpak(base@));
    }
    if str_eq(lower.as_str(), "discord") {
        lower
    } else {
        assert(lower@.len() >= 7);
        let llen = lower.as_str().unicode_len();
        let head = lower.as_str().substring_char(0, 7);
        let tail = lower.as_str().substring_char(7, llen);
        let mut out = String::new();
        out.append(head);
        push_char(&mut out, '-');
        out.append(tail);
        proof {
            assert(out@ =~= flatpak_dir_name(base@));
        }
        out
    }
}

/// Where an installation found at `p` actually lives: a resolvable Flatpak
/// reverse-domain identifier resolves through the Flatpak deployment
/// directory to the derived name; every other path is itself the
/// installation.
pub open spec fn resolved_install_path(p: Seq<char>) -> Seq<char> {
    if flatpak_name_ok(last_component(p)) {
        join_path_seq(
            join_path_seq(p, "current/active/files"@),
            flatpak_dir_name(last_component(p)),
        )
    } else {
        p
    }
}

/// The fields a Linux scan fills for a candidate path `p`: the display name
/// and branch come from the candidate's base name, the probes run against
/// the resolved installation path.
pub open spec fn linux_location_matches(loc: DiscordLocation, p: Seq<char>, tree: FsTree) -> bool {
    let resolved = resolved_install_path(p);
    let sysel = system_electron_probe(tree, resolved, Platform::Linux);
    &&& loc.name@ == last_component(p)
    &&& loc.path@ == resolved
    &&& loc.branch == branch_of(last_component(p))
    &&& loc.is_flatpak == flatpak_probe(p, Platform::Linux)
    &&& loc.is_system_electron == sysel
    &&& loc.patched == patched_probe(tree, resolved, sysel, Platform::Linux)
    &&& loc.openasar == openasar_probe(tree, resolved, loc.patched, Platform::Linux)
}

/// Classifies the installation at `full_path`, resolving a resolvable
/// Flatpak reverse-domain identifier and running every probe against the
/// resolved directory; any other name is probed where it stands.
pub fn parse_discord_location(tree: &FsTree, full_path: &str) -> (loc: DiscordLocation)
    requires
        tree.wf(),
    ensures
        linux_location_matches(loc, full_path@, *tree),
{
    let mut name = String::new();
    name.append(get_last_path_component(full_path));

    let is_flatpak = is_location_flatpak(full_path, Platform::Linux);

    let mut resolved = String::new();
    resolved.append(full_path);
    if is_resolvable_flatpak_name(name.as_str()) {
        let discord_name = flatpak_install_dir_name(name.as_str());
        let deploy = join_path(resolved.as_str(), "current/active/files");
        resolved = join_path(deploy.as_str(), discord_name.as_str());
    }

    let system_electron = is_location_system_electron(tree, resolved.as_str(), Platform::Linux);
    let patched = is_location_patched(tree, resolved.as_str(), &system_electron, Platform::Linux);
    let openasar = is_location_openasar(tree, resolved.as_str(), patched, Platform::Linux);
    let branch = DiscordBranch::from_path(name.as_str());

    DiscordLocation {
        name,
        path: resolved,
        branch,
        patched,
        openasar,
        is_flatpak,
        is_system_electron: system_electron,
    }
}

/// The fixed list of known installation directory names, the Flatpak
/// reverse-domain identifiers last.
pub open spec fn linux_location_names() -> Seq<Seq<char>> {
    seq![
        "Discord"@,
        "DiscordPTB"@,
        "DiscordCanary"@,
        "DiscordDevelopment"@,
        "discord"@,
        "discordptb"@,
        "discordcanary"@,
        "discorddevelopment"@,
        "discord-ptb"@,
        "discord-canary"@,
        "discord-development"@,
        "com.discordapp.Discord"@,
        "com.discordapp.DiscordPTB"@,
        "com.discordapp.DiscordCanary"@,
        "com.discordapp.DiscordDevelopment"@,
    ]
}

/// Returns the known installation directory names, in scan order.
pub fn get_discord_location_names() -> (r: Vec<&'static str>)
    ensures
        r@.len() == linux_location_names().len(),
        forall|i: int| 0 <= i < r@.len() ==> r@[i]@ == linux_location_names()[i],
{
    let mut names: Vec<&'static str> = Vec::new();
    names.push("Discord");
    names.push("DiscordPTB");
    names.push("DiscordCanary");
    names.push("DiscordDevelopment");
    names.push("discord");
    names.push("discordptb");
    names.push("discordcanary");
    names.push("discorddevelopment");
    names.push("discord-ptb");
    names.push("discord-canary");
    names.push("discord-development");
    names.push("com.discordapp.Discord");
    names.push("com.discordapp.DiscordPTB");
    names.push("com.discordapp.DiscordCanary");
    names.push("com.discordapp.DiscordDevelopment");
    names
}

/// The fixed, ordered list of root directories searched on Linux: system
/// share directories, `/opt`, the user's local share, a third-party
/// version-manager directory, and the Flatpak system and user application
/// directories.
pub open spec fn linux_scan_roots(home: Seq<char>) -> Seq<Seq<char>> {
    seq![
        "/usr/share"@,
        "/usr/lib64"@,
        "/opt"@,
        join_path_seq(home, ".local/share"@),
        join_path_seq(home, ".dvm"@),
        "/var/lib/flatpak/app"@,
        join_path_seq(home, ".local/share/flatpak/app"@),
    ]
}

/// Returns the root directories a Linux scan searches, in order.
pub fn get_scan_roots(home: &str) -> (r: Vec<String>)
    ensures
        r@.len() == linux_scan_roots(home@).len(),
        forall|i: int| 0 <= i < r@.len() ==> r@[i]@ == linux_scan_roots(home@)[i],
{
    let mut roots: Vec<String> = Vec::new();
    roots.push(String::from_str("/usr/share"));
    roots.push(String::from_str("/usr/lib64"));
    roots.push(String::from_str("/opt"));
    roots.push(join_path(home, ".local/share"));
    roots.push(join_path(home, ".dvm"));
    roots.push(String::from_str("/var/lib/flatpak/app"));
    roots.push(join_path(home, ".local/share/flatpak/app"));
    roots
}

/// The candidate paths under one root that exist in `tree`, from name index
/// `j` on, in scan order.
pub open spec fn hits_under_from(tree: FsTree, root: Seq<char>, names: Seq<Seq<char>>, j: int) -> Seq<
    Seq<char>,
>
    decreases names.len() - j,
{
    if j < 0 || j >= names.len() {
        Seq::<Seq<char>>::empty()
    } else {
        let p = join_path_seq(root, names[j]);
        (if tree.dirs().contains(p) {
            seq![p]
        } else {
            Seq::<Seq<char>>::empty()
        }) + hits_under_from(tree, root, names, j + 1)
    }
}

/// The candidate paths that exist in `tree`, from root index `i` on, in scan
/// order.
pub open spec fn scan_hits_from(
    tree: FsTree,
    roots: Seq<Seq<char>>,
    names: Seq<Seq<char>>,
    i: int,
) -> Seq<Seq<char>>
    decreases roots.len() - i,
{
    if i < 0 || i >= roots.len() {
        Seq::<Seq<char>>::empty()
    } else {
        hits_under_from(tree, roots[i], names, 0) + scan_hits_from(tree, roots, names, i + 1)
    }
}

/// Every candidate path a Linux scan of `tree` finds, in scan order.
pub open spec fn linux_scan_hits(tree: FsTree, home: Seq<char>) -> Seq<Seq<char>> {
    scan_hits_from(tree, linux_scan_roots(home), linux_location_names(), 0)
}

/// Each location classifies the corresponding candidate, in order.
pub open spec fn locations_match_hits(
    locs: Seq<DiscordLocation>,
    hits: Seq<Seq<char>>,
    tree: FsTree,
) -> bool {
    locs.len() == hits.len() && forall|i: int|
        0 <= i < locs.len() ==> linux_location_matches(#[trigger] locs[i], hits[i], tree)
}

/// Classifies every existing candidate under one root, from name index `j`
/// on.
fn locations_under_root(
    tree: &FsTree,
    root: &str,
    names: &Vec<&'static str>,
    j: usize,
) -> (r: Vec<DiscordLocation>)
    requires
        tree.wf(),
        j <= names@.len(),
        names@.len() == linux_location_names().len(),
        forall|k: int| 0 <= k < names@.len() ==> names@[k]@ == linux_location_names()[k],
    ensures
        locations_match_hits(
            r@,
            hits_under_from(*tree, root@, linux_location_names(), j as int),
            *tree,
        ),
    decreases names@.len() - j,
{
    let ghost hits = hits_under_from(*tree, root@, linux_location_names(), j as int);
    if j == names.len() {
        let r: Vec<DiscordLocation> = Vec::new();
        return r;
    }
    let full = join_path(root, names[j]);
    let ghost hrest = hits_under_from(*tree, root@, linux_location_names(), j + 1);
    let rest = locations_under_root(tree, root, names, j + 1);
    if tree.has_dir(full.as_str()) {
        let loc = parse_discord_location(tree, full.as_str());
        let ghost rest_view = rest@;
        let mut out: Vec<DiscordLocation> = Vec::new();
        out.push(loc);
        let mut tail = rest;
        out.append(&mut tail);
        proof {
            assert(hits =~= seq![full@] + hrest);
            assert(out@ =~= seq![loc] + rest_view);
            assert forall|i: int| 0 <= i < out@.len() implies linux_location_matches(
                #[trigger] out@[i],
                hits[i],
                *tree,
            ) by {
                if i == 0 {
                    assert(out@[0] == loc);
                    assert(hits[0] == full@);
                } else {
                    assert(out@[i] == rest_view[i - 1]);
                    assert(hits[i] == hrest[i - 1]);
                }
            }
        }
        out
    } else {
        proof {
            assert(hits =~= hrest);
        }
        rest
    }
}

/// Classifies every existing candidate, from root index `i` on.
fn locations_from_roots(
    tree: &FsTree,
    roots: &Vec<String>,
    names: &Vec<&'static str>,
    i: usize,
) -> (r: Vec<DiscordLocation>)
    requires
        tree.wf(),
        i <= roots@.len(),
        names@.len() == linux_location_names().len(),
        forall|k: int| 0 <= k < names@.len() ==> names@[k]@ == linux_location_names()[k],
    ensures
        locations_match_hits(
            r@,
            scan_hits_from(
                *tree,
                roots@.map_values(|s: String| s@),
                linux_location_names(),
                i as int,
            ),
            *tree,
        ),
    decreases roots@.len() - i,
{
    let ghost rseq = roots@.map_values(|s: String| s@);
    let ghost hits = scan_hits_from(*tree, rseq, linux_location_names(), i as int);
    if i == roots.len() {
        let r: Vec<DiscordLocation> = Vec::new();
        return r;
    }
    let ghost hhere = hits_under_from(*tree, rseq[i as int], linux_location_names(), 0);
    let ghost hrest = scan_hits_from(*tree, rseq, linux_location_names(), i + 1);
    proof {
        assert(rseq[i as int] == roots@[i as int]@);
    }
    let mut here = locations_under_root(tree, roots[i].as_str(), names, 0);
    let ghost here_view = here@;
    let mut rest = locations_from_roots(tree, roots, names, i + 1);
    let ghost rest_view = rest@;
    here.append(&mut rest);
    proof {
        assert(hits =~= hhere + hrest);
        assert(here@ =~= here_view + rest_view);
        assert forall|k: int| 0 <= k < here@.len() implies linux_location_matches(
            #[trigger] here@[k],
            hits[k],
            *tree,
        ) by {
            if k < here_view.len() {
                assert(here@[k] == here_view[k]);
                assert(hits[k] == hhere[k]);
            } else {
                assert(here@[k] == rest_view[k - here_view.len()]);
                assert(hits[k] == hrest[k - here_view.len()]);
            }
        }
    }
    here
}

/// Scans the fixed roots for the known installation names and classifies
/// every installation found, in scan order. The scan is total: it returns
/// nothing when no candidate exists anywhere, and never fails.
pub fn get_discord_locations(tree: &FsTree, home: &str) -> (r: Option<Vec<DiscordLocation>>)
    requires
        tree.wf(),
    ensures
        ({
            let hits = linux_scan_hits(*tree, home@);
            match r {
                Some(v) => hits.len() > 0 && locations_match_hits(v@, hits, *tree),
                None => hits.len() == 0,
            }
        }),
{
    let names = get_discord_location_names();
    let roots = get_scan_roots(home);
    proof {
        assert(roots@.map_values(|s: String| s@) =~= linux_scan_roots(home@));
    }
    let locs = locations_from_roots(tree, &roots, &names, 0);
    if locs.len() == 0 {
        None
    } else {
        Some(locs)
    }
}

/// Returns and names the data directory for the given configuration name:
/// `<home>/.config/<data_dir>/dist`. The caller creates it on disk.
pub fn get_data_path(home: &str, data_dir: &str) -> (r: String)
    ensures
        r@ == join_path_seq(
            join_path_seq(join_path_seq(home@, ".config"@), data_dir@),
            "dist"@,
        ),
{
    let config = join_path(home, ".config");
    let dir = join_path(config.as_str(), data_dir);
    join_path(dir.as_str(), "dist")
}

/// The resource subdirectory of a Linux installation.
pub fn get_discord_resource_location() -> (r: &'static str)
    ensures
        r@ == resource_subpath(Platform::Linux),
{
    "resources"
}

} // verus!
