use app_hub::app_images_helpers::{
    app_image_extract_all_command, app_image_extract_desktop_file_command, choose_icon,
    find_icons_paths, icon_theme_dirs, install_icons_script, remove_icons_script,
    squashfs_root_path, IconCandidate,
};
use app_hub::app_store_service::extract_first_link;
use app_hub::desktop_file_helpers::{
    find_desktop_entries_by_exec_contains, find_desktop_entry, find_desktop_file_location,
    read_all_app,
};
use app_hub::error::AppError;
use app_hub::file_system_helpers::{
    find_desktop_file_in_dir, get_file_name, is_image_file, join_path,
};
use app_hub::icons_helpers::image_to_base64;
use app_hub::installed_list::InstalledList;
use app_hub::models::{AppSettings, DesktopFile, DesktopEntry};
use app_hub::privilege::{
    helper_result, install_helper_args, uninstall_helper_args, update_helper_args,
};
use app_hub::settings_service::{default_settings, save_settings_plan};

#[test]
fn test_get_file_name_returns_last_component() {
    assert_eq!(
        get_file_name(&String::from("/tmp/App.AppImage")).unwrap(),
        "App.AppImage"
    );
    assert_eq!(get_file_name(&String::from("plain")).unwrap(), "plain");
    assert!(get_file_name(&String::from("/tmp/dir/")).is_err());
    assert!(get_file_name(&String::from("")).is_err());
}

#[test]
fn test_join_path() {
    assert_eq!(join_path("/a/b", "c.txt"), "/a/b/c.txt");
}

#[test]
fn test_find_desktop_file_in_dir_picks_first_desktop() {
    let names = vec![
        String::from("README"),
        String::from("foo.desktop"),
        String::from("bar.desktop"),
    ];
    assert_eq!(find_desktop_file_in_dir(&names).unwrap(), 1);
    let none = vec![String::from("README")];
    assert!(matches!(
        find_desktop_file_in_dir(&none),
        Err(AppError::ExtractionFailed)
    ));
}

#[test]
fn test_is_image_file_extensions() {
    assert!(is_image_file(&String::from("a.png")));
    assert!(is_image_file(&String::from("a.jpg")));
    assert!(is_image_file(&String::from("a.jpeg")));
    assert!(is_image_file(&String::from("a.svg")));
    assert!(!is_image_file(&String::from("a.txt")));
    assert!(!is_image_file(&String::from("apng")));
}

#[test]
fn test_choose_icon_picks_largest() {
    let v = vec![
        IconCandidate { path: String::from("small.png"), size: 1024 },
        IconCandidate { path: String::from("big.png"), size: 4096 },
    ];
    assert_eq!(choose_icon(&v).unwrap(), 1);
}

#[test]
fn test_choose_icon_tie_keeps_first() {
    let v = vec![
        IconCandidate { path: String::from("a.png"), size: 7 },
        IconCandidate { path: String::from("b.png"), size: 7 },
    ];
    assert_eq!(choose_icon(&v).unwrap(), 0);
}

#[test]
fn test_choose_icon_empty_fails() {
    let v: Vec<IconCandidate> = Vec::new();
    assert!(matches!(choose_icon(&v), Err(AppError::NoIconFound)));
}

#[test]
fn test_icon_theme_dirs_are_fixed() {
    let dirs = icon_theme_dirs();
    assert_eq!(dirs.len(), 18);
    assert_eq!(dirs[0], "share/icons/hicolor/22x22/apps/");
    assert_eq!(dirs[8], "share/icons/hicolor/scalable/apps/");
    assert_eq!(dirs[9], "usr/share/icons/hicolor/22x22/apps/");
    assert_eq!(dirs[17], "usr/share/icons/hicolor/scalable/apps/");
}

#[test]
fn test_find_icons_paths_patterns() {
    let pats = find_icons_paths(&String::from("Foo"));
    assert_eq!(pats.len(), 18);
    assert_eq!(pats[0], "/share/icons/hicolor/22x22/apps/Foo.*");
    assert_eq!(pats[9], "/usr/share/icons/hicolor/22x22/apps/Foo.*");
}

#[test]
fn test_install_icons_script_lines() {
    let mut present = vec![false; 18];
    present[0] = true;
    present[17] = true;
    let s = install_icons_script(&String::from("/tmp/squashfs-root"), &present);
    assert_eq!(
        s,
        "cp -r /tmp/squashfs-root/share/icons/hicolor/22x22/apps/* /share/icons/hicolor/22x22/apps/ 2>/dev/null  || : \ncp -r /tmp/squashfs-root/usr/share/icons/hicolor/scalable/apps/* /usr/share/icons/hicolor/scalable/apps/ 2>/dev/null  || : \n"
    );
}

#[test]
fn test_remove_icons_script_lines() {
    let s = remove_icons_script();
    assert!(s.starts_with("rm -r /usr/share/icons/hicolor/22x22/apps/ 2>/dev/null  || : \n"));
    assert_eq!(s.lines().count(), 18);
}

#[test]
fn test_extraction_commands() {
    assert_eq!(
        app_image_extract_all_command("/tmp", "App.AppImage"),
        "cd /tmp && ./App.AppImage --appimage-extract"
    );
    assert_eq!(
        app_image_extract_desktop_file_command("/tmp", "App.AppImage"),
        "cd /tmp && ./App.AppImage --appimage-extract *.desktop"
    );
    assert_eq!(squashfs_root_path("/tmp"), "/tmp/squashfs-root");
}

#[test]
fn test_extract_first_link_takes_first_line() {
    assert_eq!(
        extract_first_link(String::from("https://x/a\nhttps://x/b\n")).unwrap(),
        "https://x/a"
    );
    assert_eq!(extract_first_link(String::from("solo")).unwrap(), "solo");
    assert_eq!(extract_first_link(String::from("")).unwrap(), "");
}

#[test]
fn test_find_desktop_file_location() {
    let result = find_desktop_file_location(
        None,
        true,
        Some(String::from("/home/u")),
        true,
    )
    .unwrap();
    println!("Desktop file location: {}", result);
    assert!(!result.is_empty());
}

#[test]
fn test_find_desktop_file_location_resolution_order() {
    assert_eq!(
        find_desktop_file_location(Some(String::from("/kde/apps")), true, None, false).unwrap(),
        "/kde/apps"
    );
    assert_eq!(
        find_desktop_file_location(None, true, None, false).unwrap(),
        "/usr/share/applications"
    );
    assert_eq!(
        find_desktop_file_location(None, false, Some(String::from("/home/u")), true).unwrap(),
        "/home/u/.local/share/applications"
    );
    assert!(find_desktop_file_location(None, false, Some(String::from("/home/u")), false).is_err());
    assert!(find_desktop_file_location(None, false, None, false).is_err());
}

fn marked(name: &str, exec_cmd: &str) -> String {
    format!(
        "[Desktop Entry]\nType=Application\nVersion=1.0\nName={}\nExec={}\nIcon={}\nX-AppHub=true\n",
        name, exec_cmd, name
    )
}

#[test]
fn test_find_desktop_entry_matches_name() {
    let files = vec![
        DesktopFile { path: String::from("/apps/a.desktop"), content: marked("A", "/x/a") },
        DesktopFile { path: String::from("/apps/b.desktop"), content: marked("B", "/x/b") },
    ];
    assert_eq!(find_desktop_entry(&String::from("B"), &files).unwrap(), 1);
    assert!(matches!(
        find_desktop_entry(&String::from("C"), &files),
        Err(AppError::AppNotFound)
    ));
}

#[test]
fn test_read_all_app_lists_marked_entries() {
    let files = vec![
        DesktopFile { path: String::from("/apps/a.desktop"), content: marked("A", "/x/a") },
        DesktopFile {
            path: String::from("/apps/foreign.desktop"),
            content: String::from("[Desktop Entry]\nName=F\nExec=/x/f\n"),
        },
        DesktopFile { path: String::from("/apps/b.desktop"), content: marked("B", "/x/b") },
    ];
    let apps = read_all_app(&files);
    assert_eq!(apps.len(), 2);
    assert_eq!(apps[0].name, "A");
    assert_eq!(apps[0].app_path, "/x/a");
    assert_eq!(apps[0].icon_path, Some(String::from("A")));
    assert_eq!(apps[0].version, Some(String::from("1.0")));
    assert_eq!(apps[1].name, "B");
}

#[test]
fn test_installed_list_load_apps() {
    let files = vec![
        DesktopFile { path: String::from("/apps/a.desktop"), content: marked("A", "/x/a") },
    ];
    let mut list = InstalledList::new();
    assert!(list.installed_apps.is_empty());
    list.load_apps(&files);
    assert_eq!(list.installed_apps.len(), 1);
    assert_eq!(list.installed_apps[0].name, "A");
}

#[test]
fn test_find_desktop_entries_by_exec_contains() {
    let files = vec![
        DesktopFile { path: String::from("/apps/a.desktop"), content: marked("A", "/old/a") },
        DesktopFile { path: String::from("/apps/b.desktop"), content: marked("B", "/new/b") },
    ];
    let hits = find_desktop_entries_by_exec_contains(&String::from("/old"), &files);
    assert_eq!(hits, vec![String::from("/apps/a.desktop")]);
}

#[test]
fn test_desktop_entry_new_joins_categories() {
    let e = DesktopEntry::new(
        String::from("Application"),
        String::from("1.0"),
        String::from("Foo"),
        String::from("c"),
        String::from("/p"),
        String::from("/p/run"),
        String::from("foo"),
        false,
        vec![String::from("Utility"), String::from("Game")],
    );
    assert_eq!(e.categories, "Utility;Game");
    assert_eq!(e.name, "Foo");
}

#[test]
fn test_privilege_args() {
    let a = install_helper_args(&String::from("/t/a.AppImage"), &String::from("/inst"), true);
    assert_eq!(
        a,
        vec![
            String::from("--action"),
            String::from("install"),
            String::from("--file-path"),
            String::from("/t/a.AppImage"),
            String::from("--install-dir"),
            String::from("/inst"),
            String::from("--no-sandbox"),
            String::from("true"),
        ]
    );
    let u = uninstall_helper_args(&String::from("Foo"));
    assert_eq!(u[2], "--uninstall-app-name");
    assert_eq!(u[3], "Foo");
    let m = update_helper_args(&String::from("/new"), &String::from("/old"));
    assert_eq!(m[3], "/new");
    assert_eq!(m[5], "/old");
    assert!(helper_result(true).is_ok());
    assert!(matches!(helper_result(false), Err(AppError::PrivilegeError)));
}

#[test]
fn test_default_settings() {
    let s = default_settings(&String::from("/home/u"));
    assert_eq!(s.theme, "cupcake");
    assert_eq!(s.language, "en");
    assert_eq!(s.install_path, Some(String::from("/home/u/AppImages/")));
    assert!(!s.create_desktop_entry);
}

#[test]
fn test_save_settings_plan_validation() {
    let good = AppSettings {
        theme: String::from("cupcake"),
        language: String::from("en"),
        install_path: Some(String::from("/new")),
        create_desktop_entry: false,
    };
    let r = save_settings_plan(&good, Some(String::from("/old")), true).unwrap();
    let u = r.unwrap();
    assert_eq!(u.old_install_dir, "/old");
    assert_eq!(u.new_install_dir, "/new");

    let unchanged = save_settings_plan(&good, Some(String::from("/new")), true).unwrap();
    assert!(unchanged.is_none());

    let empty_path = AppSettings { install_path: Some(String::new()), ..clone_settings(&good) };
    assert!(matches!(
        save_settings_plan(&empty_path, None, true),
        Err(AppError::InputError)
    ));

    assert!(matches!(
        save_settings_plan(&good, None, false),
        Err(AppError::InputError)
    ));

    let no_theme = AppSettings { theme: String::new(), ..clone_settings(&good) };
    assert!(matches!(
        save_settings_plan(&no_theme, None, true),
        Err(AppError::InputError)
    ));
}

fn clone_settings(s: &AppSettings) -> AppSettings {
    AppSettings {
        theme: s.theme.clone(),
        language: s.language.clone(),
        install_path: s.install_path.clone(),
        create_desktop_entry: s.create_desktop_entry,
    }
}

#[test]
fn test_image_to_base64_data_url() {
    let url = image_to_base64(&String::from("/icons/foo.png"), &vec![1u8, 2u8, 3u8]);
    assert_eq!(url, "data:image/png;base64,AQID");
    let empty = image_to_base64(&String::from("/icons/blob"), &Vec::new());
    assert_eq!(empty, "data:application/octet-stream;base64,");
}
