//! Plain data carried across the pipelines: requests, settings, listings,
//! and the files read from the launcher directory.

use vstd::prelude::*;
use vstd::string::*;

use crate::text::{join_semi, join_with_semicolons, views_of};

verus! {

/// A desktop entry given outright, with every field present; `categories`
/// is stored joined by semicolons.
pub struct DesktopEntry {
    pub type_: String,
    pub version: String,
    pub name: String,
    pub comment: String,
    pub path: String,
    pub exec_cmd: String,
    pub icon: String,
    pub terminal: bool,
    pub categories: String,
}

impl DesktopEntry {
    /// Builds an entry, joining the categories with semicolons.
    pub fn new(
        type_: String,
        version: String,
        name: String,
        comment: String,
        path: String,
        exec_cmd: String,
        icon: String,
        terminal: bool,
        categories: Vec<String>,
    ) -> (r: Self)
        ensures
            r.type_@ == type_@,
            r.version@ == version@,
            r.name@ == name@,
            r.comment@ == comment@,
            r.path@ == path@,
            r.exec_cmd@ == exec_cmd@,
            r.icon@ == icon@,
            r.terminal == terminal,
            r.categories@ == join_semi(views_of(categories@)),
    {
        let categories = join_with_semicolons(&categories);
        Self { type_, version, name, comment, path, exec_cmd, icon, terminal, categories }
    }
}

/// One file of the launcher directory: its path and its text.
pub struct DesktopFile {
    pub path: String,
    pub content: String,
}

/// An installed application as shown in a listing, read back from its
/// descriptor.
pub struct InstalledApp {
    pub name: String,
    pub icon_path: Option<String>,
    pub app_path: String,
    pub version: Option<String>,
    pub categories: Option<String>,
}

/// An application entry for display, the icon already encoded for embedding.
pub struct App {
    pub name: String,
    pub icon_base64: Option<String>,
    pub app_path: String,
}

/// A list of applications.
pub struct AppList {
    pub apps: Vec<App>,
}

/// The persisted preferences of the application.
pub struct AppSettings {
    pub theme: String,
    pub language: String,
    pub install_path: Option<String>,
    pub create_desktop_entry: bool,
}

/// A request to install a bundle.
pub struct RequestInstallation {
    pub file_path: String,
    pub no_sandbox: Option<bool>,
}

/// A request to move the install directory; invalid when the two are equal.
pub struct UpdateRequest {
    pub old_install_dir: String,
    pub new_install_dir: String,
}

} // verus!
