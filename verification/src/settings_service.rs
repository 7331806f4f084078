//! Decisions of the settings store: the defaults written on first read,
//! and the validation of a save, which may require an install-directory
//! move through the elevated helper.  The store itself, an external
//! collaborator, is driven by the unverified shell.

use vstd::prelude::*;
use vstd::string::*;

use crate::error::AppError;
use crate::models::{AppSettings, UpdateRequest};

verus! {

/// The settings written when none are stored yet: the default theme and
/// language, and an `AppImages` directory under the user's home.
pub fn default_settings(home_dir: &String) -> (r: AppSettings)
    ensures
        r.theme@ == "cupcake"@,
        r.language@ == "en"@,
        r.install_path matches Some(p) && p@ == home_dir@ + "/AppImages/"@,
        r.create_desktop_entry == false,
{
    let mut install = home_dir.clone();
    install.append("/AppImages/");
    AppSettings {
        theme: String::from_str("cupcake"),
        language: String::from_str("en"),
        install_path: Some(install),
        create_desktop_entry: false,
    }
}

/// Validates a settings save and decides whether it requires moving the
/// install directory: an empty or missing install path, and an empty theme
/// or language, are rejected; a changed install path yields the move
/// request the elevated helper must perform first.
pub fn save_settings_plan(
    settings: &AppSettings,
    old_install_path: Option<String>,
    install_path_exists: bool,
) -> (r: Result<Option<UpdateRequest>, AppError>)
    ensures
        r is Err ==> r == Err::<Option<UpdateRequest>, AppError>(AppError::InputError),
        (match settings.install_path {
            Some(p) => p@.len() == 0 || !install_path_exists,
            None => false,
        }) || settings.theme@.len() == 0 || settings.language@.len() == 0 <==> r is Err,
        r matches Ok(m) ==> (match (settings.install_path, old_install_path) {
            (Some(p), Some(o)) => if p@ != o@ {
                m matches Some(u) && u.old_install_dir@ == o@ && u.new_install_dir@ == p@
            } else {
                m is None
            },
            _ => m is None,
        }),
{
    let migrate: Option<UpdateRequest> = match &settings.install_path {
        Some(p) => {
            if p.as_str().unicode_len() == 0 {
                return Err(AppError::InputError);
            }
            if !install_path_exists {
                return Err(AppError::InputError);
            }
            match old_install_path {
                Some(o) => {
                    if !(o == *p) {
                        Some(UpdateRequest { old_install_dir: o, new_install_dir: p.clone() })
                    } else {
                        None
                    }
                },
                None => None,
            }
        },
        None => None,
    };
    if settings.theme.as_str().unicode_len() == 0 || settings.language.as_str().unicode_len()
        == 0 {
        return Err(AppError::InputError);
    }
    Ok(migrate)
}

} // verus!
