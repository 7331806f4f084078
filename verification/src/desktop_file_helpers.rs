//! Scans of the launcher directory: resolving its location, finding the
//! descriptor of a named application, listing installed applications, and
//! finding descriptors whose command mentions a directory.
//!
//! The unverified shell reads the directory and hands each file's path and
//! text in as a [`DesktopFile`]; only descriptors carrying the ownership
//! marker are considered.

use vstd::prelude::*;
use vstd::string::*;

use crate::desktop_file_builder::{ownership_marker, parse_spec, DesktopFileBuilder};
use crate::error::AppError;
use crate::models::{DesktopFile, InstalledApp};
use crate::text::{contains_seq, views_of};

verus! {

/// The view of a listed application.
pub ghost struct InstalledAppView {
    pub name: Seq<char>,
    pub icon_path: Option<Seq<char>>,
    pub app_path: Seq<char>,
    pub version: Option<Seq<char>>,
    pub categories: Option<Seq<char>>,
}

impl View for InstalledApp {
    type V = InstalledAppView;

    open spec fn view(&self) -> InstalledAppView {
        InstalledAppView {
            name: self.name@,
            icon_path: match self.icon_path {
                Some(p) => Some(p@),
                None => None,
            },
            app_path: self.app_path@,
            version: match self.version {
                Some(v) => Some(v@),
                None => None,
            },
            categories: match self.categories {
                Some(c) => Some(c@),
                None => None,
            },
        }
    }
}

/// The descriptor text belongs to this system and names the application.
pub open spec fn owned_name_match(content: Seq<char>, name: Seq<char>) -> bool {
    contains_seq(content, ownership_marker()) && parse_spec(content).name == Some(name)
}

/// The first file at or after `i` whose descriptor carries the marker and
/// names the application.
pub open spec fn find_match_from(files: Seq<DesktopFile>, name: Seq<char>, i: int) -> Option<int>
    decreases files.len() - i,
{
    if i < 0 || i >= files.len() {
        None
    } else if owned_name_match(files[i].content@, name) {
        Some(i)
    } else {
        find_match_from(files, name, i + 1)
    }
}

pub proof fn lemma_find_match_from_props(files: Seq<DesktopFile>, name: Seq<char>, i: int)
    requires
        0 <= i,
    ensures
        match find_match_from(files, name, i) {
            Some(f) => i <= f < files.len() && owned_name_match(files[f].content@, name),
            None => true,
        },
    decreases files.len() - i,
{
    if i < files.len() && !owned_name_match(files[i].content@, name) {
        lemma_find_match_from_props(files, name, i + 1);
    }
}

/// What a marked descriptor contributes to the application listing: its
/// name and command are required, the rest optional.
pub open spec fn listed_app(content: Seq<char>) -> Option<InstalledAppView> {
    if !contains_seq(content, ownership_marker()) {
        None
    } else {
        let v = parse_spec(content);
        match (v.name, v.exec_cmd) {
            (Some(n), Some(e)) => Some(
                InstalledAppView {
                    name: n,
                    icon_path: v.icon,
                    app_path: e,
                    version: v.version,
                    categories: v.categories,
                },
            ),
            _ => None,
        }
    }
}

/// The applications listed from the files at or after `i`.
pub open spec fn read_all_app_spec(files: Seq<DesktopFile>, i: int) -> Seq<InstalledAppView>
    decreases files.len() - i,
{
    if i < 0 || i >= files.len() {
        Seq::empty()
    } else {
        (match listed_app(files[i].content@) {
            Some(a) => seq![a],
            None => Seq::<InstalledAppView>::empty(),
        }) + read_all_app_spec(files, i + 1)
    }
}

/// The paths of the marked descriptors at or after `i` whose command
/// contains `needle`.
pub open spec fn matching_exec_paths(files: Seq<DesktopFile>, needle: Seq<char>, i: int) -> Seq<
    Seq<char>,
>
    decreases files.len() - i,
{
    if i < 0 || i >= files.len() {
        Seq::empty()
    } else {
        (if contains_seq(files[i].content@, ownership_marker()) && (match parse_spec(
            files[i].content@,
        ).exec_cmd {
            Some(e) => contains_seq(e, needle),
            None => false,
        }) {
            seq![files[i].path@]
        } else {
            Seq::<Seq<char>>::empty()
        }) + matching_exec_paths(files, needle, i + 1)
    }
}

/// Resolves the system launcher directory from what the shell probed: an
/// environment override wins, then the fixed global path if it exists, then
/// the per-user path under the home directory.
pub fn find_desktop_file_location(
    kde_override: Option<String>,
    global_exists: bool,
    home_dir: Option<String>,
    local_exists: bool,
) -> (r: Result<String, AppError>)
    ensures
        kde_override matches Some(p) ==> r matches Ok(q) && q@ == p@,
        kde_override is None && global_exists ==> (r matches Ok(q) && q@
            == "/usr/share/applications"@),
        kde_override is None && !global_exists && local_exists ==> (home_dir matches Some(h) ==> (r
            matches Ok(q) && q@ == h@ + "/.local/share/applications"@)),
        kde_override is None && !global_exists && (home_dir is None || !local_exists) <==> r is Err,
        r is Err ==> r == Err::<String, AppError>(AppError::FilesystemError),
{
    match kde_override {
        Some(p) => Ok(p),
        None => {
            if global_exists {
                Ok(String::from_str("/usr/share/applications"))
            } else {
                match home_dir {
                    Some(h) => {
                        if local_exists {
                            let mut q = h;
                            q.append("/.local/share/applications");
                            Ok(q)
                        } else {
                            Err(AppError::FilesystemError)
                        }
                    },
                    None => Err(AppError::FilesystemError),
                }
            }
        },
    }
}

/// Scans the given launcher files for the marked descriptor naming
/// `app_name`; returns its index, or `AppNotFound` when none matches.
pub fn find_desktop_entry(app_name: &String, files: &Vec<DesktopFile>) -> (r: Result<
    usize,
    AppError,
>)
    ensures
        r matches Ok(i) ==> find_match_from(files@, app_name@, 0) == Some(i as int),
        r is Err <==> find_match_from(files@, app_name@, 0) is None,
        r is Err ==> r == Err::<usize, AppError>(AppError::AppNotFound),
{
    let n = files.len();
    let mut i: usize = 0;
    while i < n
        invariant
            n == files@.len(),
            i <= n,
            find_match_from(files@, app_name@, 0) == find_match_from(files@, app_name@, i as int),
        decreases n - i,
    {
        let matched = match DesktopFileBuilder::from_desktop_entry_string(
            files[i].content.as_str(),
            true,
        ) {
            Ok(b) => {
                match b.name() {
                    Some(nm) => nm == *app_name,
                    None => false,
                }
            },
            Err(_) => false,
        };
        if matched {
            assert(owned_name_match(files@[i as int].content@, app_name@));
            assert(find_match_from(files@, app_name@, i as int) == Some(i as int));
            return Ok(i);
        }
        assert(!owned_name_match(files@[i as int].content@, app_name@));
        assert(find_match_from(files@, app_name@, i as int) == find_match_from(
            files@,
            app_name@,
            i + 1,
        ));
        i += 1;
    }
    assert(find_match_from(files@, app_name@, i as int) is None);
    Err(AppError::AppNotFound)
}

/// Lists the installed applications found in the given launcher files,
/// keeping only marked descriptors that provide a name and a command.
pub fn read_all_app(files: &Vec<DesktopFile>) -> (r: Vec<InstalledApp>)
    ensures
        r@.map_values(|a: InstalledApp| a@) == read_all_app_spec(files@, 0),
{
    let n = files.len();
    let mut apps: Vec<InstalledApp> = Vec::new();
    let mut i: usize = 0;
    assert(apps@.map_values(|a: InstalledApp| a@) + read_all_app_spec(files@, 0)
        =~= read_all_app_spec(files@, 0));
    while i < n
        invariant
            n == files@.len(),
            i <= n,
            read_all_app_spec(files@, 0) == apps@.map_values(|a: InstalledApp| a@)
                + read_all_app_spec(files@, i as int),
        decreases n - i,
    {
        let ghost prev = apps@.map_values(|a: InstalledApp| a@);
        match DesktopFileBuilder::from_desktop_entry_string(files[i].content.as_str(), true) {
            Ok(b) => {
                let name = b.name();
                let exec_v = b.exec();
                match (name, exec_v) {
                    (Some(nm), Some(ex)) => {
                        let app = InstalledApp {
                            name: nm,
                            icon_path: b.icon(),
                            app_path: ex,
                            version: b.version(),
                            categories: b.categories(),
                        };
                        assert(listed_app(files@[i as int].content@) == Some(app@));
                        apps.push(app);
                        assert(apps@.map_values(|a: InstalledApp| a@) =~= prev + seq![app@]);
                    },
                    _ => {
                        assert(listed_app(files@[i as int].content@) is None);
                    },
                }
            },
            Err(_) => {
                assert(listed_app(files@[i as int].content@) is None);
            },
        }
        proof {
            assert(read_all_app_spec(files@, i as int) == (match listed_app(
                files@[i as int].content@,
            ) {
                Some(a) => seq![a],
                None => Seq::<InstalledAppView>::empty(),
            }) + read_all_app_spec(files@, i + 1));
            assert(read_all_app_spec(files@, 0) =~= apps@.map_values(|a: InstalledApp| a@)
                + read_all_app_spec(files@, i + 1));
        }
        i += 1;
    }
    assert(read_all_app_spec(files@, i as int) =~= Seq::<InstalledAppView>::empty());
    assert(apps@.map_values(|a: InstalledApp| a@) + Seq::<InstalledAppView>::empty()
        =~= apps@.map_values(|a: InstalledApp| a@));
    apps
}

/// The paths of the marked descriptors whose command contains
/// `contains_exec`.
pub fn find_desktop_entries_by_exec_contains(
    contains_exec: &String,
    files: &Vec<DesktopFile>,
) -> (r: Vec<String>)
    ensures
        views_of(r@) == matching_exec_paths(files@, contains_exec@, 0),
{
    let n = files.len();
    let mut out: Vec<String> = Vec::new();
    let mut i: usize = 0;
    assert(views_of(out@) + matching_exec_paths(files@, contains_exec@, 0) =~= matching_exec_paths(
        files@,
        contains_exec@,
        0,
    ));
    while i < n
        invariant
            n == files@.len(),
            i <= n,
            matching_exec_paths(files@, contains_exec@, 0) == views_of(out@)
                + matching_exec_paths(files@, contains_exec@, i as int),
        decreases n - i,
    {
        let ghost prev = views_of(out@);
        let keep = match DesktopFileBuilder::from_desktop_entry_string(
            files[i].content.as_str(),
            true,
        ) {
            Ok(b) => {
                match b.exec() {
                    Some(e) => crate::text::contains_str(e.as_str(), contains_exec.as_str()),
                    None => false,
                }
            },
            Err(_) => false,
        };
        if keep {
            out.push(files[i].path.clone());
            assert(views_of(out@) =~= prev + seq![files@[i as int].path@]);
        }
        proof {
            assert(matching_exec_paths(files@, contains_exec@, i as int) == (if contains_seq(
                files@[i as int].content@,
                ownership_marker(),
            ) && (match parse_spec(files@[i as int].content@).exec_cmd {
                Some(e) => contains_seq(e, contains_exec@),
                None => false,
            }) {
                seq![files@[i as int].path@]
            } else {
                Seq::<Seq<char>>::empty()
            }) + matching_exec_paths(files@, contains_exec@, i + 1));
            assert(matching_exec_paths(files@, contains_exec@, 0) =~= views_of(out@)
                + matching_exec_paths(files@, contains_exec@, i + 1));
        }
        i += 1;
    }
    assert(matching_exec_paths(files@, contains_exec@, i as int) =~= Seq::<Seq<char>>::empty());
    assert(views_of(out@) + Seq::<Seq<char>>::empty() =~= views_of(out@));
    out
}

} // verus!
