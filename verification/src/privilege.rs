//! The privilege boundary: protected directories are written only by a
//! separate elevated helper process.  This module computes the typed
//! argument lists handed across that boundary and interprets the helper's
//! exit: code zero is success, anything else a failure whose message the
//! shell takes from the captured error output.

use vstd::prelude::*;
use vstd::string::*;

use crate::error::AppError;

verus! {

/// The helper arguments for an installation.
pub fn install_helper_args(file_path: &String, install_dir: &String, no_sandbox: bool) -> (r: Vec<
    String,
>)
    ensures
        r@.len() == 8,
        r@[0]@ == "--action"@,
        r@[1]@ == "install"@,
        r@[2]@ == "--file-path"@,
        r@[3]@ == file_path@,
        r@[4]@ == "--install-dir"@,
        r@[5]@ == install_dir@,
        r@[6]@ == "--no-sandbox"@,
        r@[7]@ == (if no_sandbox {
            "true"@
        } else {
            "false"@
        }),
{
    let mut v: Vec<String> = Vec::new();
    v.push(String::from_str("--action"));
    v.push(String::from_str("install"));
    v.push(String::from_str("--file-path"));
    v.push(file_path.clone());
    v.push(String::from_str("--install-dir"));
    v.push(install_dir.clone());
    v.push(String::from_str("--no-sandbox"));
    if no_sandbox {
        v.push(String::from_str("true"));
    } else {
        v.push(String::from_str("false"));
    }
    v
}

/// The helper arguments for an uninstallation.
pub fn uninstall_helper_args(app_name: &String) -> (r: Vec<String>)
    ensures
        r@.len() == 4,
        r@[0]@ == "--action"@,
        r@[1]@ == "uninstall"@,
        r@[2]@ == "--uninstall-app-name"@,
        r@[3]@ == app_name@,
{
    let mut v: Vec<String> = Vec::new();
    v.push(String::from_str("--action"));
    v.push(String::from_str("uninstall"));
    v.push(String::from_str("--uninstall-app-name"));
    v.push(app_name.clone());
    v
}

/// The helper arguments for an install-directory move.
pub fn update_helper_args(new_install_dir: &String, old_install_dir: &String) -> (r: Vec<String>)
    ensures
        r@.len() == 6,
        r@[0]@ == "--action"@,
        r@[1]@ == "update"@,
        r@[2]@ == "--new-install-dir"@,
        r@[3]@ == new_install_dir@,
        r@[4]@ == "--old-install-dir"@,
        r@[5]@ == old_install_dir@,
{
    let mut v: Vec<String> = Vec::new();
    v.push(String::from_str("--action"));
    v.push(String::from_str("update"));
    v.push(String::from_str("--new-install-dir"));
    v.push(new_install_dir.clone());
    v.push(String::from_str("--old-install-dir"));
    v.push(old_install_dir.clone());
    v
}

/// Interprets the helper's exit: success exactly when the process exited
/// with code zero, a privilege failure otherwise.
pub fn helper_result(exit_success: bool) -> (r: Result<(), AppError>)
    ensures
        r is Ok <==> exit_success,
        r is Err ==> r == Err::<(), AppError>(AppError::PrivilegeError),
{
    if exit_success {
        Ok(())
    } else {
        Err(AppError::PrivilegeError)
    }
}

} // verus!
