//! The update pipeline's decisions: moving the install directory.  Equal
//! old and new directories are rejected outright, before anything is
//! touched.  For safety against data loss the shell copies the old tree to
//! the new location first, deletes the old tree only after the copy
//! succeeded, then writes the rewritten descriptors and finally marks
//! everything under the new directory executable.

use vstd::prelude::*;
use vstd::string::*;

use crate::desktop_file_builder::{
    ownership_marker, parse_spec, serialize_spec, DesktopFileBuilder, DesktopFileView,
};
use crate::error::AppError;
use crate::models::DesktopFile;
use crate::text::{contains_seq, contains_str, replace_all, replaced};

verus! {

/// What the shell must do to move the install directory.
pub struct UpdatePlan {
    /// The directory to copy recursively.
    pub copy_from: String,
    /// Where to copy it.
    pub copy_to: String,
    /// The directory to delete once the copy has succeeded: the old one.
    pub remove_dir: String,
    /// Descriptor files to rewrite: each path with its full new text.
    pub rewrites: Vec<DesktopFile>,
    /// The directory whose contents are then marked executable: the new
    /// one.
    pub mark_executable_dir: String,
}

/// The view of a replaced optional field.
pub open spec fn replaced_opt(o: Option<Seq<char>>, old: Seq<char>, new: Seq<char>) -> Option<
    Seq<char>,
> {
    match o {
        Some(s) => Some(replaced(s, old, new)),
        None => None,
    }
}

/// The rewritten text of one descriptor, or `None` when the file is left
/// alone: it is skipped unless it carries the ownership marker, its command
/// mentions the old directory, and it can be serialized again (the
/// mandatory fields are present).  The old directory is replaced by the new
/// one in the command, the icon and the path.
pub open spec fn rewrite_one(content: Seq<char>, old: Seq<char>, new: Seq<char>) -> Option<
    Seq<char>,
> {
    if !contains_seq(content, ownership_marker()) {
        None
    } else {
        let v = parse_spec(content);
        match v.exec_cmd {
            None => None,
            Some(e) => if !contains_seq(e, old) {
                None
            } else {
                let nv = DesktopFileView {
                    exec_cmd: Some(replaced(e, old, new)),
                    icon: replaced_opt(v.icon, old, new),
                    path: replaced_opt(v.path, old, new),
                    ..v
                };
                if nv.type_ is None || nv.version is None || nv.name is None {
                    None
                } else {
                    Some(serialize_spec(nv))
                }
            },
        }
    }
}

/// The rewrites of the files at or after `i`, as path/text pairs.
pub open spec fn rewrites_spec(files: Seq<DesktopFile>, old: Seq<char>, new: Seq<char>, i: int)
    -> Seq<(Seq<char>, Seq<char>)>
    decreases files.len() - i,
{
    if i < 0 || i >= files.len() {
        Seq::empty()
    } else {
        (match rewrite_one(files[i].content@, old, new) {
            Some(c) => seq![(files[i].path@, c)],
            None => Seq::<(Seq<char>, Seq<char>)>::empty(),
        }) + rewrites_spec(files, old, new, i + 1)
    }
}

/// The path/text views of planned rewrites.
pub open spec fn rewrite_views(v: Seq<DesktopFile>) -> Seq<(Seq<char>, Seq<char>)> {
    v.map_values(|f: DesktopFile| (f.path@, f.content@))
}

/// Computes the update plan.  A request naming the same directory twice is
/// rejected with `InputError` and nothing is touched; otherwise the plan
/// copies the old tree to the new place, removes the old tree, and rewrites
/// every marked descriptor whose command mentions the old directory.
pub fn app_image_update(
    old_install_dir: String,
    new_install_dir: String,
    files: &Vec<DesktopFile>,
) -> (r: Result<UpdatePlan, AppError>)
    ensures
        old_install_dir@ == new_install_dir@ <==> r == Err::<UpdatePlan, AppError>(
            AppError::InputError,
        ),
        r is Err ==> r == Err::<UpdatePlan, AppError>(AppError::InputError),
        r matches Ok(plan) ==> {
            &&& plan.copy_from@ == old_install_dir@
            &&& plan.copy_to@ == new_install_dir@
            &&& plan.remove_dir@ == old_install_dir@
            &&& plan.mark_executable_dir@ == new_install_dir@
            &&& rewrite_views(plan.rewrites@) == rewrites_spec(
                files@,
                old_install_dir@,
                new_install_dir@,
                0,
            )
        },
{
    if old_install_dir == new_install_dir {
        return Err(AppError::InputError);
    }
    let ghost old_v = old_install_dir@;
    let ghost new_v = new_install_dir@;
    let n = files.len();
    let mut rewrites: Vec<DesktopFile> = Vec::new();
    let mut i: usize = 0;
    assert(rewrite_views(rewrites@) + rewrites_spec(files@, old_v, new_v, 0) =~= rewrites_spec(
        files@,
        old_v,
        new_v,
        0,
    ));
    while i < n
        invariant
            n == files@.len(),
            i <= n,
            old_v == old_install_dir@,
            new_v == new_install_dir@,
            rewrites_spec(files@, old_v, new_v, 0) == rewrite_views(rewrites@) + rewrites_spec(
                files@,
                old_v,
                new_v,
                i as int,
            ),
        decreases n - i,
    {
        let ghost prev = rewrite_views(rewrites@);
        match DesktopFileBuilder::from_desktop_entry_string(files[i].content.as_str(), true) {
            Ok(b) => {
                match b.exec() {
                    Some(e) => {
                        if contains_str(e.as_str(), old_install_dir.as_str()) {
                            let mut nb = b;
                            nb.set_exec(
                                replace_all(
                                    e.as_str(),
                                    old_install_dir.as_str(),
                                    new_install_dir.as_str(),
                                ),
                            );
                            match nb.icon() {
                                Some(ic) => {
                                    nb.set_icon(
                                        replace_all(
                                            ic.as_str(),
                                            old_install_dir.as_str(),
                                            new_install_dir.as_str(),
                                        ),
                                    );
                                },
                                None => {},
                            }
                            match nb.path() {
                                Some(p) => {
                                    nb.set_path(
                                        replace_all(
                                            p.as_str(),
                                            old_install_dir.as_str(),
                                            new_install_dir.as_str(),
                                        ),
                                    );
                                },
                                None => {},
                            }
                            match nb.generate_content_string() {
                                Ok(c) => {
                                    let f = DesktopFile { path: files[i].path.clone(), content: c };
                                    assert(rewrite_one(files@[i as int].content@, old_v, new_v)
                                        == Some(f.content@));
                                    rewrites.push(f);
                                    assert(rewrite_views(rewrites@) =~= prev + rewrites_spec(
                                        files@,
                                        old_v,
                                        new_v,
                                        i as int,
                                    ).take(1));
                                },
                                Err(_) => {
                                    assert(rewrite_one(files@[i as int].content@, old_v, new_v)
                                        is None);
                                },
                            }
                        } else {
                            assert(rewrite_one(files@[i as int].content@, old_v, new_v) is None);
                        }
                    },
                    None => {
                        assert(rewrite_one(files@[i as int].content@, old_v, new_v) is None);
                    },
                }
            },
            Err(_) => {
                assert(rewrite_one(files@[i as int].content@, old_v, new_v) is None);
            },
        }
        proof {
            assert(rewrites_spec(files@, old_v, new_v, i as int) == (match rewrite_one(
                files@[i as int].content@,
                old_v,
                new_v,
            ) {
                Some(c) => seq![(files@[i as int].path@, c)],
                None => Seq::<(Seq<char>, Seq<char>)>::empty(),
            }) + rewrites_spec(files@, old_v, new_v, i + 1));
            assert(rewrites_spec(files@, old_v, new_v, 0) =~= rewrite_views(rewrites@)
                + rewrites_spec(files@, old_v, new_v, i + 1));
        }
        i += 1;
    }
    assert(rewrites_spec(files@, old_v, new_v, i as int) =~= Seq::<(Seq<char>, Seq<char>)>::empty());
    assert(rewrite_views(rewrites@) + Seq::<(Seq<char>, Seq<char>)>::empty() =~= rewrite_views(
        rewrites@,
    ));
    Ok(
        UpdatePlan {
            copy_from: old_install_dir.clone(),
            copy_to: new_install_dir.clone(),
            remove_dir: old_install_dir,
            rewrites,
            mark_executable_dir: new_install_dir,
        },
    )
}

} // verus!
