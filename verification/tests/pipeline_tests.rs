use app_hub::app_image_installer::install_app_image;
use app_hub::app_image_uninstaller::uninstall_app_image;
use app_hub::app_image_updater::app_image_update;
use app_hub::error::AppError;
use app_hub::models::DesktopFile;

fn bundle_descriptor() -> String {
    String::from("[Desktop Entry]\nType=Application\nVersion=1.0\nName=Foo\nExec=AppRun\nIcon=Foo\n")
}

#[test]
fn test_install_without_descriptor_fails_with_extraction_failed() {
    let r = install_app_image(
        String::from("/tmp/App.AppImage"),
        String::from("/home/u/AppImages"),
        false,
        None,
        String::from("/usr/share/applications"),
    );
    assert!(matches!(r, Err(AppError::ExtractionFailed)));
}

#[test]
fn test_install_end_to_end_plan() {
    let plan = install_app_image(
        String::from("/tmp/App.AppImage"),
        String::from("/home/u/AppImages"),
        false,
        Some(bundle_descriptor()),
        String::from("/usr/share/applications"),
    )
    .unwrap();
    assert_eq!(plan.app_name, "Foo");
    assert_eq!(plan.desktop_file_path, "/usr/share/applications/Foo.desktop");
    assert_eq!(plan.binary_source, "/tmp/App.AppImage");
    assert_eq!(plan.binary_target, "/home/u/AppImages/App.AppImage");
    assert_eq!(
        plan.desktop_file_content,
        "[Desktop Entry]\nType=Application\nVersion=1.0\nName=Foo\nPath=/home/u/AppImages\nExec=/home/u/AppImages/App.AppImage\nIcon=Foo\nX-AppHub=true\n"
    );
    assert!(!plan.desktop_file_content.contains("--no-sandbox"));
}

#[test]
fn test_install_no_sandbox_appends_suffix() {
    let plan = install_app_image(
        String::from("/tmp/App.AppImage"),
        String::from("/home/u/AppImages"),
        true,
        Some(bundle_descriptor()),
        String::from("/usr/share/applications"),
    )
    .unwrap();
    assert!(plan
        .desktop_file_content
        .contains("Exec=/home/u/AppImages/App.AppImage --no-sandbox\n"));
}

#[test]
fn test_install_rejects_empty_file_name() {
    let r = install_app_image(
        String::from("/tmp/dir/"),
        String::from("/home/u/AppImages"),
        false,
        Some(bundle_descriptor()),
        String::from("/usr/share/applications"),
    );
    assert!(matches!(r, Err(AppError::InputError)));
}

#[test]
fn test_install_without_name_fails_with_parse_error() {
    let content = String::from("[Desktop Entry]\nType=Application\nVersion=1.0\nExec=AppRun\n");
    let r = install_app_image(
        String::from("/tmp/App.AppImage"),
        String::from("/home/u/AppImages"),
        false,
        Some(content),
        String::from("/usr/share/applications"),
    );
    assert!(matches!(r, Err(AppError::ParseError)));
}

#[test]
fn test_install_without_version_fails_with_missing_field() {
    let content = String::from("[Desktop Entry]\nType=Application\nName=Foo\nExec=AppRun\n");
    let r = install_app_image(
        String::from("/tmp/App.AppImage"),
        String::from("/home/u/AppImages"),
        false,
        Some(content),
        String::from("/usr/share/applications"),
    );
    assert!(matches!(r, Err(AppError::MissingMandatoryField)));
}

fn installed_files() -> Vec<DesktopFile> {
    vec![
        DesktopFile {
            path: String::from("/usr/share/applications/other.desktop"),
            content: String::from(
                "[Desktop Entry]\nType=Application\nVersion=1.0\nName=Other\nExec=/x/Other.AppImage\nIcon=Other\nX-AppHub=true\n",
            ),
        },
        DesktopFile {
            path: String::from("/usr/share/applications/foreign.desktop"),
            content: String::from(
                "[Desktop Entry]\nType=Application\nVersion=1.0\nName=Foreign\nExec=/x/foreign\n",
            ),
        },
        DesktopFile {
            path: String::from("/usr/share/applications/Foo.desktop"),
            content: String::from(
                "[Desktop Entry]\nType=Application\nVersion=1.0\nName=Foo\nExec=/home/u/AppImages/App.AppImage\nIcon=Foo\nX-AppHub=true\n",
            ),
        },
    ]
}

#[test]
fn test_uninstall_unknown_name_returns_app_not_found() {
    let r = uninstall_app_image(String::from("Missing"), &installed_files());
    assert!(matches!(r, Err(AppError::AppNotFound)));
}

#[test]
fn test_uninstall_ignores_unmarked_descriptors() {
    let r = uninstall_app_image(String::from("Foreign"), &installed_files());
    assert!(matches!(r, Err(AppError::AppNotFound)));
}

#[test]
fn test_uninstall_end_to_end_plan() {
    let plan = uninstall_app_image(String::from("Foo"), &installed_files()).unwrap();
    assert_eq!(plan.descriptor_path, "/usr/share/applications/Foo.desktop");
    assert_eq!(plan.binary_path, "/home/u/AppImages/App.AppImage");
    assert_eq!(plan.icon_patterns.len(), 18);
    assert_eq!(plan.icon_patterns[0], "/share/icons/hicolor/22x22/apps/Foo.*");
    assert_eq!(
        plan.icon_patterns[17],
        "/usr/share/icons/hicolor/scalable/apps/Foo.*"
    );
    for p in &plan.icon_patterns {
        assert!(p.ends_with("Foo.*"));
    }
}

#[test]
fn test_uninstall_strips_sandbox_suffix() {
    let files = vec![DesktopFile {
        path: String::from("/usr/share/applications/Foo.desktop"),
        content: String::from(
            "[Desktop Entry]\nType=Application\nVersion=1.0\nName=Foo\nExec=/x/App.AppImage --no-sandbox\nX-AppHub=true\n",
        ),
    }];
    let plan = uninstall_app_image(String::from("Foo"), &files).unwrap();
    assert_eq!(plan.binary_path, "/x/App.AppImage");
    assert!(plan.icon_patterns.is_empty());
}

#[test]
fn test_update_same_directories_rejected() {
    let r = app_image_update(
        String::from("/home/u/AppImages"),
        String::from("/home/u/AppImages"),
        &installed_files(),
    );
    assert!(matches!(r, Err(AppError::InputError)));
}

#[test]
fn test_update_rewrites_matching_descriptors() {
    let plan = app_image_update(
        String::from("/home/u/AppImages"),
        String::from("/data/Apps"),
        &installed_files(),
    )
    .unwrap();
    assert_eq!(plan.copy_from, "/home/u/AppImages");
    assert_eq!(plan.copy_to, "/data/Apps");
    assert_eq!(plan.remove_dir, "/home/u/AppImages");
    assert_eq!(plan.mark_executable_dir, "/data/Apps");
    assert_eq!(plan.rewrites.len(), 1);
    assert_eq!(plan.rewrites[0].path, "/usr/share/applications/Foo.desktop");
    assert_eq!(
        plan.rewrites[0].content,
        "[Desktop Entry]\nType=Application\nVersion=1.0\nName=Foo\nExec=/data/Apps/App.AppImage\nIcon=Foo\nX-AppHub=true\n"
    );
}

#[test]
fn test_update_rewrites_icon_and_path_too() {
    let files = vec![DesktopFile {
        path: String::from("/usr/share/applications/Foo.desktop"),
        content: String::from(
            "[Desktop Entry]\nType=Application\nVersion=1.0\nName=Foo\nPath=/old/dir\nExec=/old/dir/App.AppImage\nIcon=/old/dir/icons/foo.png\nX-AppHub=true\n",
        ),
    }];
    let plan =
        app_image_update(String::from("/old/dir"), String::from("/new/dir"), &files).unwrap();
    assert_eq!(plan.rewrites.len(), 1);
    assert_eq!(
        plan.rewrites[0].content,
        "[Desktop Entry]\nType=Application\nVersion=1.0\nName=Foo\nPath=/new/dir\nExec=/new/dir/App.AppImage\nIcon=/new/dir/icons/foo.png\nX-AppHub=true\n"
    );
}
