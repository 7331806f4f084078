//! The install pipeline's decisions: from the request and the descriptor
//! text extracted out of the bundle, compute everything the elevated shell
//! must write — the rewritten descriptor, where to put it, and where to copy
//! the binary.
//!
//! The shell performs the steps strictly in order: mark the bundle
//! executable, extract, parse, place icons, write the descriptor, copy the
//! binary, remove the workspace; a failing step aborts the rest but undoes
//! nothing.

use vstd::prelude::*;
use vstd::string::*;

use crate::desktop_file_builder::{parse_spec, serialize_spec, DesktopFileBuilder, DesktopFileView};
use crate::error::AppError;
use crate::file_system_helpers::{cut_pos, file_name_of, get_file_name, join_path, slash_join};

verus! {

/// What the shell must write to finish an installation.
pub struct InstallPlan {
    /// Where the descriptor goes: `<launcher dir>/<name>.desktop`.
    pub desktop_file_path: String,
    /// The full descriptor text to write there.
    pub desktop_file_content: String,
    /// The bundle file the request named.
    pub binary_source: String,
    /// Where the binary goes: `<install dir>/<bundle file name>`.
    pub binary_target: String,
    /// The application's display name, as the descriptor gave it.
    pub app_name: String,
}

/// The descriptor that installation writes: the bundle's own descriptor
/// with `Exec` pointed at the installed binary, `Path` at the install
/// directory, and the sandbox flag set when requested.
pub open spec fn installed_view(
    content: Seq<char>,
    installation_dir: Seq<char>,
    file_name: Seq<char>,
    no_sandbox: bool,
) -> DesktopFileView {
    DesktopFileView {
        exec_cmd: Some(slash_join(installation_dir, file_name)),
        path: Some(installation_dir),
        no_sanbox: if no_sandbox {
            Some(true)
        } else {
            None
        },
        ..parse_spec(content)
    }
}

/// Computes the install plan.  `descriptor_content` is the text of the
/// descriptor found in the extracted payload, or `None` when extraction
/// produced none — then nothing is planned and nothing will be written.
/// `applications_dir` is the resolved launcher directory.
pub fn install_app_image(
    file_path: String,
    installation_dir: String,
    no_sandbox: bool,
    descriptor_content: Option<String>,
    applications_dir: String,
) -> (r: Result<InstallPlan, AppError>)
    ensures
        cut_pos(file_path@) == file_path@.len() ==> r == Err::<InstallPlan, AppError>(
            AppError::InputError,
        ),
        cut_pos(file_path@) < file_path@.len() && descriptor_content is None ==> r == Err::<
            InstallPlan,
            AppError,
        >(AppError::ExtractionFailed),
        cut_pos(file_path@) < file_path@.len() ==> (descriptor_content matches Some(c) ==> ({
            let v = installed_view(c@, installation_dir@, file_name_of(file_path@), no_sandbox);
            &&& (v.name is None ==> r == Err::<InstallPlan, AppError>(AppError::ParseError))
            &&& (v.name is Some && (v.type_ is None || v.version is None) ==> r == Err::<
                InstallPlan,
                AppError,
            >(AppError::MissingMandatoryField))
            &&& (v.name is Some && v.type_ is Some && v.version is Some ==> (r matches Ok(plan) && {
                &&& plan.desktop_file_content@ == serialize_spec(v)
                &&& plan.desktop_file_path@ == slash_join(
                    applications_dir@,
                    v.name->0 + ".desktop"@,
                )
                &&& plan.binary_source@ == file_path@
                &&& plan.binary_target@ == slash_join(
                    installation_dir@,
                    file_name_of(file_path@),
                )
                &&& plan.app_name@ == v.name->0
            }))
        })),
{
    let file_name = match get_file_name(&file_path) {
        Ok(n) => n,
        Err(_) => {
            return Err(AppError::InputError);
        },
    };
    let content = match descriptor_content {
        Some(c) => c,
        None => {
            return Err(AppError::ExtractionFailed);
        },
    };
    // The bundle's descriptor is foreign, so the ownership marker is not
    // demanded of it.
    let mut builder = match DesktopFileBuilder::from_desktop_entry_string(content.as_str(), false) {
        Ok(b) => b,
        Err(_) => {
            return Err(AppError::ParseError);
        },
    };
    builder.set_exec(join_path(installation_dir.as_str(), file_name.as_str()));
    builder.set_path(installation_dir.clone());
    if no_sandbox {
        builder.set_no_sandbox(true);
    }
    let app_name = match builder.name() {
        Some(n) => n,
        None => {
            return Err(AppError::ParseError);
        },
    };
    let desktop_file_content = match builder.generate_content_string() {
        Ok(c) => c,
        Err(e) => {
            return Err(e);
        },
    };
    let mut with_ext = app_name.clone();
    with_ext.append(".desktop");
    let desktop_file_path = join_path(applications_dir.as_str(), with_ext.as_str());
    let binary_target = join_path(installation_dir.as_str(), file_name.as_str());
    Ok(
        InstallPlan {
            desktop_file_path,
            desktop_file_content,
            binary_source: file_path,
            binary_target,
            app_name,
        },
    )
}

} // verus!
