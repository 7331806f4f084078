//! Bundle and icon helpers: the self-extraction command lines, the fixed
//! list of icon-theme directories, representative-icon selection, and the
//! scripts the elevated helper runs to place or remove icons.
//!
//! Bundles place icons inconsistently, so installation copies every present
//! subtree of a fixed, exhaustive list of theme-size directories, duplicated
//! under two possible root prefixes.

use vstd::prelude::*;
use vstd::string::*;

use crate::error::AppError;

verus! {

/// The shell command that runs a bundle's built-in extraction mode
/// restricted to descriptor files, from the bundle's own directory.
pub open spec fn extract_desktop_file_command_spec(dir: Seq<char>, name: Seq<char>) -> Seq<char> {
    "cd "@ + dir + " && ./"@ + name + " --appimage-extract *.desktop"@
}

/// The shell command that runs a bundle's full self-extraction, from the
/// bundle's own directory.
pub open spec fn extract_all_command_spec(dir: Seq<char>, name: Seq<char>) -> Seq<char> {
    "cd "@ + dir + " && ./"@ + name + " --appimage-extract"@
}

/// The command extracting only the descriptor files of the bundle named
/// `app_name` inside `app_image_dir`.
pub fn app_image_extract_desktop_file_command(app_image_dir: &str, app_name: &str) -> (r: String)
    ensures
        r@ == extract_desktop_file_command_spec(app_image_dir@, app_name@),
{
    let mut c = String::from_str("cd ");
    c.append(app_image_dir);
    c.append(" && ./");
    c.append(app_name);
    c.append(" --appimage-extract *.desktop");
    c
}

/// The command running the full self-extraction of the bundle named
/// `app_name` inside `app_image_dir`.
pub fn app_image_extract_all_command(app_image_dir: &str, app_name: &str) -> (r: String)
    ensures
        r@ == extract_all_command_spec(app_image_dir@, app_name@),
{
    let mut c = String::from_str("cd ");
    c.append(app_image_dir);
    c.append(" && ./");
    c.append(app_name);
    c.append(" --appimage-extract");
    c
}

/// The workspace directory that self-extraction produces beside the bundle.
pub fn squashfs_root_path(parent_dir: &str) -> (r: String)
    ensures
        r@ == parent_dir@ + "/squashfs-root"@,
{
    let mut c = String::from_str(parent_dir);
    c.append("/squashfs-root");
    c
}

/// The number of icon-theme directories consulted.
pub open spec fn icon_dirs_len() -> int {
    18
}

/// The fixed icon-theme directories, relative to a filesystem root: the
/// `hicolor` sizes 22 through 512 plus `scalable`, under the two roots
/// `share` and `usr/share`.
pub open spec fn icon_dirs_spec() -> Seq<Seq<char>> {
    seq![
        "share/icons/hicolor/22x22/apps/"@,
        "share/icons/hicolor/24x24/apps/"@,
        "share/icons/hicolor/32x32/apps/"@,
        "share/icons/hicolor/48x48/apps/"@,
        "share/icons/hicolor/64x64/apps/"@,
        "share/icons/hicolor/128x128/apps/"@,
        "share/icons/hicolor/256x256/apps/"@,
        "share/icons/hicolor/512x512/apps/"@,
        "share/icons/hicolor/scalable/apps/"@,
        "usr/share/icons/hicolor/22x22/apps/"@,
        "usr/share/icons/hicolor/24x24/apps/"@,
        "usr/share/icons/hicolor/32x32/apps/"@,
        "usr/share/icons/hicolor/48x48/apps/"@,
        "usr/share/icons/hicolor/64x64/apps/"@,
        "usr/share/icons/hicolor/128x128/apps/"@,
        "usr/share/icons/hicolor/256x256/apps/"@,
        "usr/share/icons/hicolor/512x512/apps/"@,
        "usr/share/icons/hicolor/scalable/apps/"@,
    ]
}

/// The icon-theme directories, relative to a filesystem root.
pub fn icon_theme_dirs() -> (r: Vec<String>)
    ensures
        r@.len() == icon_dirs_len(),
        forall|i: int| 0 <= i < r@.len() ==> r@[i]@ == icon_dirs_spec()[i],
{
    let mut v: Vec<String> = Vec::new();
    v.push(String::from_str("share/icons/hicolor/22x22/apps/"));
    v.push(String::from_str("share/icons/hicolor/24x24/apps/"));
    v.push(String::from_str("share/icons/hicolor/32x32/apps/"));
    v.push(String::from_str("share/icons/hicolor/48x48/apps/"));
    v.push(String::from_str("share/icons/hicolor/64x64/apps/"));
    v.push(String::from_str("share/icons/hicolor/128x128/apps/"));
    v.push(String::from_str("share/icons/hicolor/256x256/apps/"));
    v.push(String::from_str("share/icons/hicolor/512x512/apps/"));
    v.push(String::from_str("share/icons/hicolor/scalable/apps/"));
    v.push(String::from_str("usr/share/icons/hicolor/22x22/apps/"));
    v.push(String::from_str("usr/share/icons/hicolor/24x24/apps/"));
    v.push(String::from_str("usr/share/icons/hicolor/32x32/apps/"));
    v.push(String::from_str("usr/share/icons/hicolor/48x48/apps/"));
    v.push(String::from_str("usr/share/icons/hicolor/64x64/apps/"));
    v.push(String::from_str("usr/share/icons/hicolor/128x128/apps/"));
    v.push(String::from_str("usr/share/icons/hicolor/256x256/apps/"));
    v.push(String::from_str("usr/share/icons/hicolor/512x512/apps/"));
    v.push(String::from_str("usr/share/icons/hicolor/scalable/apps/"));
    v
}

/// An image file discovered under an extracted payload.
pub struct IconCandidate {
    /// Where the image lies.
    pub path: String,
    /// Its size in bytes.
    pub size: u64,
}

/// Picks the representative icon: the candidate with the largest byte size,
/// the first encountered among equal maxima.  Fails only when there are no
/// candidates.
pub fn choose_icon(candidates: &Vec<IconCandidate>) -> (r: Result<usize, AppError>)
    ensures
        r is Err <==> candidates@.len() == 0,
        r is Err ==> r == Err::<usize, AppError>(AppError::NoIconFound),
        r matches Ok(i) ==> i < candidates@.len() && (forall|j: int|
            0 <= j < candidates@.len() ==> candidates@[j].size <= candidates@[i as int].size)
            && (forall|j: int| 0 <= j < i ==> candidates@[j].size < candidates@[i as int].size),
{
    let n = candidates.len();
    if n == 0 {
        return Err(AppError::NoIconFound);
    }
    let mut best: usize = 0;
    let mut i: usize = 1;
    while i < n
        invariant
            n == candidates@.len(),
            best < i <= n,
            forall|j: int| 0 <= j < i ==> candidates@[j].size <= candidates@[best as int].size,
            forall|j: int| 0 <= j < best ==> candidates@[j].size < candidates@[best as int].size,
        decreases n - i,
    {
        if candidates[i].size > candidates[best].size {
            best = i;
        }
        i += 1;
    }
    Ok(best)
}

/// The glob pattern that finds every installed icon file of `icon_name`
/// under theme directory `d`: `/<d><icon_name>.*`.
pub open spec fn icon_pattern_spec(d: Seq<char>, icon_name: Seq<char>) -> Seq<char> {
    seq!['/'] + d + icon_name + ".*"@
}

/// The glob patterns locating every installed icon file named
/// `<icon_name>.*` across the theme directories.
pub fn find_icons_paths(icon_name: &String) -> (r: Vec<String>)
    ensures
        r@.len() == icon_dirs_len(),
        forall|i: int| 0 <= i < r@.len() ==> r@[i]@ == icon_pattern_spec(
            icon_dirs_spec()[i],
            icon_name@,
        ),
{
    let dirs = icon_theme_dirs();
    let mut v: Vec<String> = Vec::new();
    let mut i: usize = 0;
    while i < dirs.len()
        invariant
            dirs@.len() == icon_dirs_len(),
            forall|k: int| 0 <= k < dirs@.len() ==> dirs@[k]@ == icon_dirs_spec()[k],
            i <= dirs@.len(),
            v@.len() == i,
            forall|k: int| 0 <= k < i ==> v@[k]@ == icon_pattern_spec(
                icon_dirs_spec()[k],
                icon_name@,
            ),
        decreases dirs@.len() - i,
    {
        let mut p = String::from_str("/");
        p.append(dirs[i].as_str());
        p.append(icon_name.as_str());
        p.append(".*");
        proof {
            reveal_strlit("/");
            assert("/"@ =~= seq!['/']);
            assert(p@ =~= icon_pattern_spec(icon_dirs_spec()[i as int], icon_name@));
        }
        v.push(p);
        i += 1;
    }
    v
}

/// The script lines that copy every present, non-empty icon subtree of the
/// workspace into the corresponding system theme directory, from position
/// `i` on; `present` says which subtrees the shell found worth copying.
pub open spec fn install_icons_lines(root: Seq<char>, present: Seq<bool>, i: int) -> Seq<char>
    decreases icon_dirs_len() - i,
{
    if i < 0 || i >= icon_dirs_len() {
        Seq::empty()
    } else {
        (if present[i] {
            "cp -r "@ + root + seq!['/'] + icon_dirs_spec()[i] + "* /"@ + icon_dirs_spec()[i]
                + " 2>/dev/null  || : \n"@
        } else {
            Seq::<char>::empty()
        }) + install_icons_lines(root, present, i + 1)
    }
}

/// The shell script that copies the marked icon subtrees of the workspace
/// `squashfs_root_path` into the system theme directories; each line
/// tolerates failure so one bad subtree does not stop the rest.
pub fn install_icons_script(squashfs_root_path: &String, present: &Vec<bool>) -> (r: String)
    requires
        present@.len() == icon_dirs_len(),
    ensures
        r@ == install_icons_lines(squashfs_root_path@, present@, 0),
{
    let dirs = icon_theme_dirs();
    let mut script = String::new();
    let mut i: usize = 0;
    assert(script@ + install_icons_lines(squashfs_root_path@, present@, 0) =~= install_icons_lines(
        squashfs_root_path@,
        present@,
        0,
    ));
    while i < dirs.len()
        invariant
            dirs@.len() == icon_dirs_len(),
            present@.len() == icon_dirs_len(),
            forall|k: int| 0 <= k < dirs@.len() ==> dirs@[k]@ == icon_dirs_spec()[k],
            i <= dirs@.len(),
            install_icons_lines(squashfs_root_path@, present@, 0) == script@ + install_icons_lines(
                squashfs_root_path@,
                present@,
                i as int,
            ),
        decreases dirs@.len() - i,
    {
        if present[i] {
            script.append("cp -r ");
            script.append(squashfs_root_path.as_str());
            script.append("/");
            script.append(dirs[i].as_str());
            script.append("* /");
            script.append(dirs[i].as_str());
            script.append(" 2>/dev/null  || : \n");
            proof {
                reveal_strlit("/");
                assert("/"@ =~= seq!['/']);
            }
        }
        proof {
            assert(install_icons_lines(squashfs_root_path@, present@, i as int) == (if present@[i as int] {
                "cp -r "@ + squashfs_root_path@ + seq!['/'] + icon_dirs_spec()[i as int] + "* /"@
                    + icon_dirs_spec()[i as int] + " 2>/dev/null  || : \n"@
            } else {
                Seq::<char>::empty()
            }) + install_icons_lines(squashfs_root_path@, present@, i + 1));
            assert(install_icons_lines(squashfs_root_path@, present@, 0) =~= script@
                + install_icons_lines(squashfs_root_path@, present@, i + 1));
        }
        i += 1;
    }
    assert(install_icons_lines(squashfs_root_path@, present@, i as int) =~= Seq::<char>::empty());
    assert(script@ + Seq::<char>::empty() =~= script@);
    script
}

/// The script lines that remove the system icon directories under `/usr/`,
/// from position `i` on.
pub open spec fn remove_icons_lines(i: int) -> Seq<char>
    decreases icon_dirs_len() - i,
{
    if i < 0 || i >= icon_dirs_len() {
        Seq::empty()
    } else {
        "rm -r /usr/"@ + icon_dirs_spec()[i] + " 2>/dev/null  || : \n"@ + remove_icons_lines(i + 1)
    }
}

/// The shell script that removes the icon directories under `/usr/`; each
/// line tolerates failure.
pub fn remove_icons_script() -> (r: String)
    ensures
        r@ == remove_icons_lines(0),
{
    let dirs = icon_theme_dirs();
    let mut script = String::new();
    let mut i: usize = 0;
    assert(script@ + remove_icons_lines(0) =~= remove_icons_lines(0));
    while i < dirs.len()
        invariant
            dirs@.len() == icon_dirs_len(),
            forall|k: int| 0 <= k < dirs@.len() ==> dirs@[k]@ == icon_dirs_spec()[k],
            i <= dirs@.len(),
            remove_icons_lines(0) == script@ + remove_icons_lines(i as int),
        decreases dirs@.len() - i,
    {
        script.append("rm -r /usr/");
        script.append(dirs[i].as_str());
        script.append(" 2>/dev/null  || : \n");
        proof {
            assert(remove_icons_lines(i as int) == "rm -r /usr/"@ + icon_dirs_spec()[i as int]
                + " 2>/dev/null  || : \n"@ + remove_icons_lines(i + 1));
            assert(remove_icons_lines(0) =~= script@ + remove_icons_lines(i + 1));
        }
        i += 1;
    }
    assert(remove_icons_lines(i as int) =~= Seq::<char>::empty());
    assert(script@ + Seq::<char>::empty() =~= script@);
    script
}

} // verus!
