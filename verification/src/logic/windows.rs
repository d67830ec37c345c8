//! The front end's installation probe on Windows.
//!
//! A Windows installation directory holds versioned `app-*` subdirectories.
//! The probe keeps the one with the lexicographically greatest name — plain
//! string comparison, not version-aware, so `app-1.0.9` beats `app-1.0.10`
//! — among those that hold a `resources` directory.

use vstd::prelude::*;
use crate::fs_model::FsTree;
use crate::logic::shared::{filename_branch, DiscordBranch, DiscordInstall};
use crate::paths::windows::{greatest_app_dir, has_versioned_app_dir, versioned_app_dir};
use crate::text::{
    child_name,
    get_child_name,
    get_last_path_component,
    join_path,
    join_path_seq,
    last_component,
    lemma_lex_lt_irrefl,
    lemma_lex_lt_total,
    lemma_lex_lt_trans,
    lex_lt,
    str_lt,
    str_starts_with,
};

verus! {

/// Whether a directory name is one of the known installation names the scan
/// accepts.
pub fn is_discord_dir_name(name: &str) -> (r: bool)
    ensures
        r == crate::paths::windows::windows_location_names().contains(name@),
{
    let names = crate::paths::windows::get_discord_location_names();
    let ghost spec_names = crate::paths::windows::windows_location_names();
    let mut i: usize = 0;
    while i < names.len()
        invariant
            spec_names == crate::paths::windows::windows_location_names(),
            names@.len() == spec_names.len(),
            forall|k: int| 0 <= k < names@.len() ==> names@[k]@ == spec_names[k],
            i <= names@.len(),
            forall|k: int| 0 <= k < i ==> spec_names[k] != name@,
        decreases names@.len() - i,
    {
        if crate::text::str_eq(names[i], name) {
            proof {
                assert(spec_names[i as int] == name@);
                assert(spec_names.contains(name@));
            }
            return true;
        }
        i = i + 1;
    }
    false
}

/// Classifies the installation at `path` for the front end: among the
/// versioned `app-*` subdirectories with resources, the one with the
/// lexicographically greatest name becomes the active application path. An
/// installation without any such subdirectory is still reported, with an
/// empty application path; only a `path` that is no directory at all is
/// rejected.
pub fn parse_discord(tree: &FsTree, path: String) -> (r: Option<DiscordInstall>)
    requires
        tree.wf(),
    ensures
        ({
            match r {
                Some(inst) => {
                    &&& tree.dirs().contains(path@)
                    &&& inst.path@ == path@
                    &&& inst.branch == filename_branch(last_component(path@))
                    &&& inst.is_flatpak == false
                    &&& if has_versioned_app_dir(*tree, path@) {
                        inst.app_path matches Some(a) && greatest_app_dir(*tree, path@, a@)
                            && inst.is_patched == tree.files().dom().contains(
                            join_path_seq(join_path_seq(a@, "resources"@), "_app.asar"@),
                        )
                    } else {
                        (inst.app_path matches Some(a) && a@ == Seq::<char>::empty())
                            && inst.is_patched == false
                    }
                },
                None => !tree.dirs().contains(path@),
            }
        }),
{
    if !tree.has_dir(path.as_str()) {
        return None;
    }

    let mut base = String::new();
    base.append(get_last_path_component(path.as_str()));

    let mut best_path = String::new();
    let mut best_name = String::new();
    let mut best_patched = false;
    let mut have = false;

    let count = tree.dir_count();
    let mut i: usize = 0;
    while i < count
        invariant
            tree.wf(),
            count == tree.dir_list().len(),
            i <= count,
            have == exists|k: int|
                0 <= k < i && versioned_app_dir(*tree, path@, #[trigger] tree.dir_list()[k]),
            have ==> versioned_app_dir(*tree, path@, best_path@) && best_name@ == child_name(
                best_path@,
                path@,
            ) && best_patched == tree.files().dom().contains(
                join_path_seq(join_path_seq(best_path@, "resources"@), "_app.asar"@),
            ),
            forall|k: int|
                0 <= k < i && versioned_app_dir(*tree, path@, #[trigger] tree.dir_list()[k])
                    ==> !lex_lt(best_name@, child_name(tree.dir_list()[k], path@)),
        decreases count - i,
    {
        let d = tree.dir_at(i);
        let mut app_dir = String::new();
        app_dir.append(d.as_str());
        let mut matched = false;
        let mut app_name = String::new();
        if let Some(n) = get_child_name(app_dir.as_str(), path.as_str()) {
            if str_starts_with(n, "app-") {
                matched = true;
                app_name.append(n);
            }
        }
        if matched {
            let resources = join_path(app_dir.as_str(), "resources");
            if tree.has_dir(resources.as_str()) {
                proof {
                    assert(tree.dir_list().contains(tree.dir_list()[i as int]));
                    assert(versioned_app_dir(*tree, path@, tree.dir_list()[i as int]));
                }
                if !have || str_lt(best_name.as_str(), app_name.as_str()) {
                    proof {
                        if have {
                            assert forall|k: int|
                                0 <= k < i + 1 && versioned_app_dir(
                                    *tree,
                                    path@,
                                    #[trigger] tree.dir_list()[k],
                                ) implies !lex_lt(
                                app_name@,
                                child_name(tree.dir_list()[k], path@),
                            ) by {
                                if k < i {
                                    let kn = child_name(tree.dir_list()[k], path@);
                                    if lex_lt(app_name@, kn) {
                                        lemma_lex_lt_trans(best_name@, app_name@, kn);
                                    }
                                } else {
                                    lemma_lex_lt_irrefl(app_name@);
                                }
                            }
                        } else {
                            assert forall|k: int|
                                0 <= k < i + 1 && versioned_app_dir(
                                    *tree,
                                    path@,
                                    #[trigger] tree.dir_list()[k],
                                ) implies !lex_lt(
                                app_name@,
                                child_name(tree.dir_list()[k], path@),
                            ) by {
                                lemma_lex_lt_irrefl(app_name@);
                            }
                        }
                    }
                    let backup = join_path(resources.as_str(), "_app.asar");
                    best_patched = tree.has_file(backup.as_str());
                    best_path = app_dir;
                    best_name = app_name;
                    have = true;
                } else {
                    proof {
                        lemma_lex_lt_total(best_name@, app_name@);
                        if best_name@ == app_name@ {
                            lemma_lex_lt_irrefl(app_name@);
                        }
                    }
                }
            } else {
                proof {
                    assert(!versioned_app_dir(*tree, path@, tree.dir_list()[i as int]));
                }
            }
        } else {
            proof {
                assert(!versioned_app_dir(*tree, path@, tree.dir_list()[i as int]));
            }
        }
        i = i + 1;
    }

    let branch = DiscordBranch::from_filename(base.as_str());
    let app_path = if have {
        best_path
    } else {
        String::new()
    };
    let is_patched = if have {
        best_patched
    } else {
        false
    };
    Some(
        DiscordInstall {
            path,
            app_path: Some(app_path),
            branch,
            is_patched,
            is_flatpak: false,
        },
    )
}

} // verus!
