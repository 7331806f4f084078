//! The uninstall pipeline's decisions: locate the marked descriptor naming
//! the application among the launcher files, and compute what the shell
//! must delete — the binary (its command stripped of the sandbox-disabling
//! suffix), the descriptor file, and every installed icon of the
//! application.

use vstd::prelude::*;
use vstd::string::*;

use crate::app_images_helpers::{find_icons_paths, icon_dirs_len, icon_dirs_spec, icon_pattern_spec};
use crate::desktop_file_builder::{parse_spec, DesktopFileBuilder};
use crate::desktop_file_helpers::{
    find_desktop_entry, find_match_from, lemma_find_match_from_props, owned_name_match,
};
use crate::error::AppError;
use crate::models::DesktopFile;
use crate::text::{replace_all, replaced, trim, trimmed};

verus! {

/// What the shell must delete to finish an uninstallation.  Deleting the
/// icons is best effort: a failure there is only a warning.
pub struct UninstallPlan {
    /// The installed binary: the descriptor's command, stripped of the
    /// sandbox-disabling suffix and of surrounding whitespace.
    pub binary_path: String,
    /// The descriptor file to delete.
    pub descriptor_path: String,
    /// Glob patterns for every icon file of the application across the
    /// theme directories; empty when the descriptor named no icon.
    pub icon_patterns: Vec<String>,
}

/// The binary path recorded in a descriptor command: the command with the
/// sandbox-disabling flag removed and whitespace trimmed.
pub open spec fn stripped_binary(exec_cmd: Seq<char>) -> Seq<char> {
    trimmed(replaced(exec_cmd, "--no-sandbox"@, Seq::<char>::empty()))
}

/// Computes the uninstall plan for the application named `app_name` from
/// the launcher files.  Returns `AppNotFound`, and nothing is deleted, when
/// no marked descriptor carries that name; `ParseError` when the matching
/// descriptor lacks a command.
pub fn uninstall_app_image(app_name: String, files: &Vec<DesktopFile>) -> (r: Result<
    UninstallPlan,
    AppError,
>)
    ensures
        find_match_from(files@, app_name@, 0) is None <==> r == Err::<UninstallPlan, AppError>(
            AppError::AppNotFound,
        ),
        find_match_from(files@, app_name@, 0) matches Some(i) ==> ({
            let v = parse_spec(files@[i].content@);
            &&& (v.exec_cmd is None ==> r == Err::<UninstallPlan, AppError>(AppError::ParseError))
            &&& (v.exec_cmd matches Some(e) ==> (r matches Ok(plan) && {
                &&& plan.binary_path@ == stripped_binary(e)
                &&& plan.descriptor_path@ == files@[i].path@
                &&& (match v.icon {
                    Some(ic) => plan.icon_patterns@.len() == icon_dirs_len() && forall|k: int|
                        0 <= k < icon_dirs_len() ==> plan.icon_patterns@[k]@ == icon_pattern_spec(
                            icon_dirs_spec()[k],
                            ic,
                        ),
                    None => plan.icon_patterns@.len() == 0,
                })
            }))
        }),
{
    let idx = match find_desktop_entry(&app_name, files) {
        Ok(i) => i,
        Err(_) => {
            return Err(AppError::AppNotFound);
        },
    };
    proof {
        lemma_find_match_from_props(files@, app_name@, 0);
        assert(owned_name_match(files@[idx as int].content@, app_name@));
    }
    let builder = match DesktopFileBuilder::from_desktop_entry_string(
        files[idx].content.as_str(),
        true,
    ) {
        Ok(b) => b,
        Err(_) => {
            // The match was found by parsing this same text with the marker
            // required, so the marker is present and parsing cannot fail.
            proof {
                assert(false);
            }
            return Err(AppError::ParseError);
        },
    };
    let exec_cmd = match builder.exec() {
        Some(e) => e,
        None => {
            return Err(AppError::ParseError);
        },
    };
    let without_flag = replace_all(exec_cmd.as_str(), "--no-sandbox", "");
    proof {
        reveal_strlit("");
        assert(""@ =~= Seq::<char>::empty());
    }
    let binary_path = trim(without_flag.as_str());
    let icon_patterns: Vec<String> = match builder.icon() {
        Some(ic) => find_icons_paths(&ic),
        None => Vec::new(),
    };
    Ok(
        UninstallPlan {
            binary_path,
            descriptor_path: files[idx].path.clone(),
            icon_patterns,
        },
    )
}

} // verus!
