//! The installed-applications page state: the list is always re-derived
//! from the launcher directory's files, never cached beyond one load.

use vstd::prelude::*;

use crate::desktop_file_helpers::{read_all_app, read_all_app_spec};
use crate::models::{DesktopFile, InstalledApp};

verus! {

/// The state behind the installed-applications listing.
pub struct InstalledList {
    pub installed_apps: Vec<InstalledApp>,
}

impl InstalledList {
    /// An empty listing, before any load.
    pub fn new() -> (r: Self)
        ensures
            r.installed_apps@.len() == 0,
    {
        InstalledList { installed_apps: Vec::new() }
    }

    /// Re-derives the listing from the launcher directory's files.
    pub fn load_apps(&mut self, files: &Vec<DesktopFile>)
        ensures
            final(self).installed_apps@.map_values(|a: InstalledApp| a@) == read_all_app_spec(
                files@,
                0,
            ),
    {
        self.installed_apps = read_all_app(files);
    }
}

} // verus!
