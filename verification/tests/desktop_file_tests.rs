use app_hub::desktop_file_builder::DesktopFileBuilder;
use app_hub::error::AppError;

fn sample_text() -> String {
    String::from(
        "[Desktop Entry]\nType=Application\nVersion=1.0\nName=Foo\nComment=A tool\nPath=/opt/foo\nExec=AppRun\nIcon=foo\nTerminal=false\nCategories=Utility;Development\n",
    )
}

#[test]
fn test_parse_reads_all_fields() {
    let b = DesktopFileBuilder::from_desktop_entry_string(&sample_text(), false).unwrap();
    assert_eq!(b.type_(), Some(String::from("Application")));
    assert_eq!(b.version(), Some(String::from("1.0")));
    assert_eq!(b.name(), Some(String::from("Foo")));
    assert_eq!(b.comment(), Some(String::from("A tool")));
    assert_eq!(b.path(), Some(String::from("/opt/foo")));
    assert_eq!(b.exec(), Some(String::from("AppRun")));
    assert_eq!(b.icon(), Some(String::from("foo")));
    assert_eq!(b.terminal(), Some(false));
    assert_eq!(b.categories(), Some(String::from("Utility;Development")));
    assert_eq!(b.no_sanbox(), None);
}

#[test]
fn test_parse_first_match_wins() {
    let text = "Name=First\nName=Second\n";
    let b = DesktopFileBuilder::from_desktop_entry_string(text, false).unwrap();
    assert_eq!(b.name(), Some(String::from("First")));
}

#[test]
fn test_parse_key_must_start_line() {
    let text = "XName=Hidden\n";
    let b = DesktopFileBuilder::from_desktop_entry_string(text, false).unwrap();
    assert_eq!(b.name(), None);
}

#[test]
fn test_parse_value_without_trailing_newline() {
    let b = DesktopFileBuilder::from_desktop_entry_string("Name=X", false).unwrap();
    assert_eq!(b.name(), Some(String::from("X")));
}

#[test]
fn test_parse_value_may_contain_equals() {
    let b = DesktopFileBuilder::from_desktop_entry_string("Exec=env A=1 run\n", false).unwrap();
    assert_eq!(b.exec(), Some(String::from("env A=1 run")));
}

#[test]
fn test_parse_terminal_true() {
    let b = DesktopFileBuilder::from_desktop_entry_string("Terminal=true\n", false).unwrap();
    assert_eq!(b.terminal(), Some(true));
}

#[test]
fn test_parse_rejects_unmarked_when_marker_required() {
    let r = DesktopFileBuilder::from_desktop_entry_string(&sample_text(), true);
    assert!(matches!(r, Err(AppError::InvalidOwner)));
}

#[test]
fn test_parse_accepts_marked_when_marker_required() {
    let mut text = sample_text();
    text.push_str("X-AppHub=true\n");
    let b = DesktopFileBuilder::from_desktop_entry_string(&text, true).unwrap();
    assert_eq!(b.name(), Some(String::from("Foo")));
}

#[test]
fn test_serialize_full_entry() {
    let mut b = DesktopFileBuilder::new();
    b.set_type(String::from("Application"));
    b.set_version(String::from("1.0"));
    b.set_name(String::from("Foo"));
    b.set_comment(String::from("A tool"));
    b.set_path(String::from("/opt/foo"));
    b.set_exec(String::from("/opt/foo/run"));
    b.set_icon(String::from("foo"));
    b.set_terminal(false);
    b.set_categories(vec![String::from("Utility"), String::from("Development")]);
    let c = b.generate_content_string().unwrap();
    assert_eq!(
        c,
        "[Desktop Entry]\nType=Application\nVersion=1.0\nName=Foo\nComment=A tool\nPath=/opt/foo\nExec=/opt/foo/run\nIcon=foo\nTerminal=false\nCategories=Utility;Development\nX-AppHub=true\n"
    );
}

#[test]
fn test_serialize_appends_sandbox_suffix() {
    let mut b = DesktopFileBuilder::new();
    b.set_type(String::from("Application"));
    b.set_version(String::from("1.0"));
    b.set_name(String::from("Foo"));
    b.set_exec(String::from("/opt/foo/run"));
    b.set_no_sandbox(true);
    let c = b.generate_content_string().unwrap();
    assert_eq!(
        c,
        "[Desktop Entry]\nType=Application\nVersion=1.0\nName=Foo\nExec=/opt/foo/run --no-sandbox\nX-AppHub=true\n"
    );
}

#[test]
fn test_serialize_requires_type() {
    let mut b = DesktopFileBuilder::new();
    b.set_version(String::from("1.0"));
    b.set_name(String::from("Foo"));
    b.set_exec(String::from("run"));
    assert!(matches!(
        b.generate_content_string(),
        Err(AppError::MissingMandatoryField)
    ));
}

#[test]
fn test_serialize_requires_version() {
    let mut b = DesktopFileBuilder::new();
    b.set_type(String::from("Application"));
    b.set_name(String::from("Foo"));
    b.set_exec(String::from("run"));
    assert!(matches!(
        b.generate_content_string(),
        Err(AppError::MissingMandatoryField)
    ));
}

#[test]
fn test_serialize_requires_name() {
    let mut b = DesktopFileBuilder::new();
    b.set_type(String::from("Application"));
    b.set_version(String::from("1.0"));
    b.set_exec(String::from("run"));
    assert!(matches!(
        b.generate_content_string(),
        Err(AppError::MissingMandatoryField)
    ));
}

#[test]
fn test_serialize_requires_exec() {
    let mut b = DesktopFileBuilder::new();
    b.set_type(String::from("Application"));
    b.set_version(String::from("1.0"));
    b.set_name(String::from("Foo"));
    assert!(matches!(
        b.generate_content_string(),
        Err(AppError::MissingMandatoryField)
    ));
}

#[test]
fn test_parse_then_serialize_preserves_mandatory_fields() {
    let text = "Garbage line\nType=Application\nVersion=1.1\nName=Bar\nExec=/usr/bin/bar\n";
    let b = DesktopFileBuilder::from_desktop_entry_string(text, false).unwrap();
    let c = b.generate_content_string().unwrap();
    let b2 = DesktopFileBuilder::from_desktop_entry_string(&c, true).unwrap();
    assert_eq!(b2.type_(), Some(String::from("Application")));
    assert_eq!(b2.version(), Some(String::from("1.1")));
    assert_eq!(b2.name(), Some(String::from("Bar")));
    assert_eq!(b2.exec(), Some(String::from("/usr/bin/bar")));
}

#[test]
fn test_set_categories_joins_with_semicolons() {
    let mut b = DesktopFileBuilder::new();
    b.set_categories(vec![]);
    assert_eq!(b.categories(), Some(String::from("")));
    b.set_categories(vec![String::from("One")]);
    assert_eq!(b.categories(), Some(String::from("One")));
    b.set_categories(vec![String::from("One"), String::from("Two"), String::from("Three")]);
    assert_eq!(b.categories(), Some(String::from("One;Two;Three")));
}

#[test]
fn test_error_messages_are_nonempty() {
    let errors = [
        AppError::InputError,
        AppError::ExtractionFailed,
        AppError::ParseError,
        AppError::InvalidOwner,
        AppError::MissingMandatoryField,
        AppError::NoIconFound,
        AppError::FilesystemError,
        AppError::PrivilegeError,
        AppError::AppNotFound,
    ];
    for e in errors {
        assert!(!e.message().is_empty());
    }
}
