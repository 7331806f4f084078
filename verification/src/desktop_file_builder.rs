//! The launcher-descriptor model: an in-memory record of a desktop entry,
//! with a verified line-oriented parser and serializer.
//!
//! A descriptor text is scanned line by line; for each recognized key the
//! first line beginning with `Key=` supplies the value.  Serialization emits
//! one `[Desktop Entry]` section with the fields in a fixed order, appends
//! the sandbox-disabling suffix to `Exec` when asked, and ends with the
//! ownership marker that distinguishes entries this system created.

use vstd::prelude::*;
use vstd::string::*;

use crate::error::AppError;
use crate::text::{
    contains_seq, contains_str, join_semi, join_with_semicolons, parse_field, parsed_field,
    views_of,
};

verus! {

/// The ownership marker written into every descriptor this system creates.
pub open spec fn ownership_marker() -> Seq<char> {
    "X-AppHub=true"@
}

/// The suffix appended to an `Exec` value when sandboxing is disabled.
pub open spec fn sandbox_suffix() -> Seq<char> {
    " --no-sandbox"@
}

/// The mathematical content of a descriptor: each field either absent or a
/// character sequence (booleans for `Terminal` and the sandbox flag).
pub ghost struct DesktopFileView {
    pub type_: Option<Seq<char>>,
    pub version: Option<Seq<char>>,
    pub name: Option<Seq<char>>,
    pub comment: Option<Seq<char>>,
    pub path: Option<Seq<char>>,
    pub exec_cmd: Option<Seq<char>>,
    pub icon: Option<Seq<char>>,
    pub terminal: Option<bool>,
    pub categories: Option<Seq<char>>,
    pub no_sanbox: Option<bool>,
}

/// The view of an optional string.
pub open spec fn view_opt(o: Option<String>) -> Option<Seq<char>> {
    match o {
        Some(s) => Some(s@),
        None => None,
    }
}

/// What the line-oriented parser extracts from a descriptor text: for each
/// key, the value of the first line beginning with `Key=`; `Terminal` is the
/// comparison of its value with `true`; the sandbox flag is never set by
/// parsing.
pub open spec fn parse_spec(s: Seq<char>) -> DesktopFileView {
    DesktopFileView {
        type_: parsed_field(s, "Type="@),
        version: parsed_field(s, "Version="@),
        name: parsed_field(s, "Name="@),
        comment: parsed_field(s, "Comment="@),
        path: parsed_field(s, "Path="@),
        exec_cmd: parsed_field(s, "Exec="@),
        icon: parsed_field(s, "Icon="@),
        terminal: match parsed_field(s, "Terminal="@) {
            Some(t) => Some(t == "true"@),
            None => None,
        },
        categories: parsed_field(s, "Categories="@),
        no_sanbox: None,
    }
}

/// A `Key=value` line, newline-terminated, or nothing when the field is
/// absent.
pub open spec fn opt_line(kp: Seq<char>, val: Option<Seq<char>>) -> Seq<char> {
    match val {
        Some(x) => kp + x + seq!['\n'],
        None => Seq::empty(),
    }
}

/// The `Exec` line: the value, with the sandbox-disabling suffix when the
/// flag is set.
pub open spec fn exec_line(cmd: Seq<char>, no_sanbox: Option<bool>) -> Seq<char> {
    "Exec="@ + cmd + (if no_sanbox == Some(true) {
        sandbox_suffix()
    } else {
        Seq::<char>::empty()
    }) + seq!['\n']
}

/// The `Terminal` line, or nothing when the field is absent.
pub open spec fn terminal_line(t: Option<bool>) -> Seq<char> {
    match t {
        Some(true) => "Terminal=true\n"@,
        Some(false) => "Terminal=false\n"@,
        None => Seq::empty(),
    }
}

/// The serialized descriptor text: a single `[Desktop Entry]` section with
/// the fields in fixed order, closed by the ownership marker.  Meaningful
/// when the mandatory fields (`Type`, `Version`, `Name`, `Exec`) are
/// present.
pub open spec fn serialize_spec(v: DesktopFileView) -> Seq<char> {
    "[Desktop Entry]\n"@ + opt_line("Type="@, v.type_) + opt_line("Version="@, v.version)
        + opt_line("Name="@, v.name) + opt_line("Comment="@, v.comment) + opt_line(
        "Path="@,
        v.path,
    ) + (match v.exec_cmd {
        Some(e) => exec_line(e, v.no_sanbox),
        None => Seq::empty(),
    }) + opt_line("Icon="@, v.icon) + terminal_line(v.terminal) + opt_line(
        "Categories="@,
        v.categories,
    ) + "X-AppHub=true\n"@
}

/// A descriptor under construction: every field optional, validated only at
/// serialization time.
pub struct DesktopFileBuilder {
    /// The entry type, usually `Application`.  Mandatory at serialization.
    type_: Option<String>,
    /// The descriptor format version.  Mandatory at serialization.
    version: Option<String>,
    /// The application's display name.  Mandatory at serialization.
    name: Option<String>,
    /// A short description of the application.
    comment: Option<String>,
    /// The working directory of the application.
    path: Option<String>,
    /// The command that starts the application.  Mandatory at serialization.
    exec_cmd: Option<String>,
    /// The icon name or path.
    icon: Option<String>,
    /// Whether the application runs in a terminal.
    terminal: Option<bool>,
    /// The menu categories, joined by semicolons.
    categories: Option<String>,
    /// Whether the sandbox-disabling suffix is appended to `Exec`.
    no_sanbox: Option<bool>,
}

impl View for DesktopFileBuilder {
    type V = DesktopFileView;

    closed spec fn view(&self) -> DesktopFileView {
        DesktopFileView {
            type_: view_opt(self.type_),
            version: view_opt(self.version),
            name: view_opt(self.name),
            comment: view_opt(self.comment),
            path: view_opt(self.path),
            exec_cmd: view_opt(self.exec_cmd),
            icon: view_opt(self.icon),
            terminal: self.terminal,
            categories: view_opt(self.categories),
            no_sanbox: self.no_sanbox,
        }
    }
}

/// The view with every field absent.
pub open spec fn empty_view() -> DesktopFileView {
    DesktopFileView {
        type_: None,
        version: None,
        name: None,
        comment: None,
        path: None,
        exec_cmd: None,
        icon: None,
        terminal: None,
        categories: None,
        no_sanbox: None,
    }
}

impl DesktopFileBuilder {
    /// A descriptor with every field absent.
    pub fn new() -> (r: Self)
        ensures
            r@ == empty_view(),
    {
        Self {
            type_: None,
            version: None,
            name: None,
            comment: None,
            path: None,
            exec_cmd: None,
            icon: None,
            terminal: None,
            categories: None,
            no_sanbox: None,
        }
    }

    /// Reads a descriptor from its text.  When `require_marker` is set, text
    /// lacking the ownership marker is rejected, so that files this system
    /// did not create are ignored.
    pub fn from_desktop_entry_string(content: &str, require_marker: bool) -> (r: Result<
        Self,
        AppError,
    >)
        ensures
            r is Err <==> require_marker && !contains_seq(content@, ownership_marker()),
            r is Err ==> r == Err::<Self, AppError>(AppError::InvalidOwner),
            r matches Ok(b) ==> b@ == parse_spec(content@),
    {
        if require_marker && !contains_str(content, "X-AppHub=true") {
            return Err(AppError::InvalidOwner);
        }
        let terminal: Option<bool> = match parse_field(content, "Terminal=") {
            Some(v) => {
                let tr = String::from_str("true");
                Some(v == tr)
            },
            None => None,
        };
        let r = Self {
            type_: parse_field(content, "Type="),
            version: parse_field(content, "Version="),
            name: parse_field(content, "Name="),
            comment: parse_field(content, "Comment="),
            path: parse_field(content, "Path="),
            exec_cmd: parse_field(content, "Exec="),
            icon: parse_field(content, "Icon="),
            terminal,
            categories: parse_field(content, "Categories="),
            no_sanbox: None,
        };
        Ok(r)
    }

    /// Sets the mandatory `Type` field.
    pub fn set_type(&mut self, type_: String)
        ensures
            final(self)@ == (DesktopFileView { type_: Some(type_@), ..old(self)@ }),
    {
        self.type_ = Some(type_);
    }

    /// Sets the mandatory `Version` field.
    pub fn set_version(&mut self, version: String)
        ensures
            final(self)@ == (DesktopFileView { version: Some(version@), ..old(self)@ }),
    {
        self.version = Some(version);
    }

    /// Sets the mandatory `Name` field.
    pub fn set_name(&mut self, name: String)
        ensures
            final(self)@ == (DesktopFileView { name: Some(name@), ..old(self)@ }),
    {
        self.name = Some(name);
    }

    /// Sets the `Comment` field.
    pub fn set_comment(&mut self, comment: String)
        ensures
            final(self)@ == (DesktopFileView { comment: Some(comment@), ..old(self)@ }),
    {
        self.comment = Some(comment);
    }

    /// Sets the `Path` field.
    pub fn set_path(&mut self, path: String)
        ensures
            final(self)@ == (DesktopFileView { path: Some(path@), ..old(self)@ }),
    {
        self.path = Some(path);
    }

    /// Sets the mandatory `Exec` field.
    pub fn set_exec(&mut self, exec_value: String)
        ensures
            final(self)@ == (DesktopFileView { exec_cmd: Some(exec_value@), ..old(self)@ }),
    {
        self.exec_cmd = Some(exec_value);
    }

    /// Sets the `Icon` field.
    pub fn set_icon(&mut self, icon: String)
        ensures
            final(self)@ == (DesktopFileView { icon: Some(icon@), ..old(self)@ }),
    {
        self.icon = Some(icon);
    }

    /// Sets the `Terminal` field.
    pub fn set_terminal(&mut self, terminal: bool)
        ensures
            final(self)@ == (DesktopFileView { terminal: Some(terminal), ..old(self)@ }),
    {
        self.terminal = Some(terminal);
    }

    /// Sets the `Categories` field from a list, joined by semicolons.
    pub fn set_categories(&mut self, categories: Vec<String>)
        ensures
            final(self)@ == (DesktopFileView {
                categories: Some(join_semi(views_of(categories@))),
                ..old(self)@
            }),
    {
        let joined = join_with_semicolons(&categories);
        self.categories = Some(joined);
    }

    /// Sets the sandbox-disabling flag.
    pub fn set_no_sandbox(&mut self, no_sandbox: bool)
        ensures
            final(self)@ == (DesktopFileView { no_sanbox: Some(no_sandbox), ..old(self)@ }),
    {
        self.no_sanbox = Some(no_sandbox);
    }

    /// The serialized descriptor text, or `MissingMandatoryField` when
    /// `Type`, `Version`, `Name` or `Exec` is absent.
    #[verifier::rlimit(100)]
    pub fn generate_content_string(&self) -> (r: Result<String, AppError>)
        ensures
            r is Err <==> (self@.type_ is None || self@.version is None || self@.name is None
                || self@.exec_cmd is None),
            r is Err ==> r == Err::<String, AppError>(AppError::MissingMandatoryField),
            r matches Ok(c) ==> c@ == serialize_spec(self@),
    {
        if self.type_.is_none() {
            return Err(AppError::MissingMandatoryField);
        }
        if self.version.is_none() {
            return Err(AppError::MissingMandatoryField);
        }
        if self.name.is_none() {
            return Err(AppError::MissingMandatoryField);
        }
        if self.exec_cmd.is_none() {
            return Err(AppError::MissingMandatoryField);
        }
        let mut c = String::from_str("[Desktop Entry]\n");
        proof {
            reveal_strlit("\n");
            assert("\n"@ =~= seq!['\n']);
        }
        let ghost g0 = "[Desktop Entry]\n"@;
        match &self.type_ {
            Some(t) => {
                c.append("Type=");
                c.append(t.as_str());
                c.append("\n");
            },
            None => {},
        }
        let ghost g1 = g0 + opt_line("Type="@, self@.type_);
        proof {
            assert(c@ =~= g1);
        }
        match &self.version {
            Some(v) => {
                c.append("Version=");
                c.append(v.as_str());
                c.append("\n");
            },
            None => {},
        }
        let ghost g2 = g1 + opt_line("Version="@, self@.version);
        proof {
            assert(c@ =~= g2);
        }
        match &self.name {
            Some(n) => {
                c.append("Name=");
                c.append(n.as_str());
                c.append("\n");
            },
            None => {},
        }
        let ghost g3 = g2 + opt_line("Name="@, self@.name);
        proof {
            assert(c@ =~= g3);
        }
        match &self.comment {
            Some(cm) => {
                c.append("Comment=");
                c.append(cm.as_str());
                c.append("\n");
            },
            None => {},
        }
        let ghost g4 = g3 + opt_line("Comment="@, self@.comment);
        proof {
            assert(c@ =~= g4);
        }
        match &self.path {
            Some(p) => {
                c.append("Path=");
                c.append(p.as_str());
                c.append("\n");
            },
            None => {},
        }
        let ghost g5 = g4 + opt_line("Path="@, self@.path);
        proof {
            assert(c@ =~= g5);
        }
        match &self.exec_cmd {
            Some(e) => {
                c.append("Exec=");
                c.append(e.as_str());
                if let Some(true) = self.no_sanbox {
                    c.append(" --no-sandbox");
                }
                c.append("\n");
            },
            None => {},
        }
        let ghost g6 = g5 + (match self@.exec_cmd {
            Some(e) => exec_line(e, self@.no_sanbox),
            None => Seq::empty(),
        });
        proof {
            assert(c@ =~= g6);
        }
        match &self.icon {
            Some(ic) => {
                c.append("Icon=");
                c.append(ic.as_str());
                c.append("\n");
            },
            None => {},
        }
        let ghost g7 = g6 + opt_line("Icon="@, self@.icon);
        proof {
            assert(c@ =~= g7);
        }
        match self.terminal {
            Some(true) => {
                c.append("Terminal=true\n");
            },
            Some(false) => {
                c.append("Terminal=false\n");
            },
            None => {},
        }
        let ghost g8 = g7 + terminal_line(self@.terminal);
        proof {
            assert(c@ =~= g8);
        }
        match &self.categories {
            Some(cat) => {
                c.append("Categories=");
                c.append(cat.as_str());
                c.append("\n");
            },
            None => {},
        }
        let ghost g9 = g8 + opt_line("Categories="@, self@.categories);
        proof {
            assert(c@ =~= g9);
        }
        c.append("X-AppHub=true\n");
        proof {
            assert(c@ =~= g9 + "X-AppHub=true\n"@);
            assert(g9 + "X-AppHub=true\n"@ == serialize_spec(self@));
        }
        Ok(c)
    }

    /// The `Type` field.
    pub fn type_(&self) -> (r: Option<String>)
        ensures
            view_opt(r) == self@.type_,
    {
        match &self.type_ {
            Some(s) => Some(s.clone()),
            None => None,
        }
    }

    /// The `Version` field.
    pub fn version(&self) -> (r: Option<String>)
        ensures
            view_opt(r) == self@.version,
    {
        match &self.version {
            Some(s) => Some(s.clone()),
            None => None,
        }
    }

    /// The `Name` field.
    pub fn name(&self) -> (r: Option<String>)
        ensures
            view_opt(r) == self@.name,
    {
        match &self.name {
            Some(s) => Some(s.clone()),
            None => None,
        }
    }

    /// The `Path` field.
    pub fn path(&self) -> (r: Option<String>)
        ensures
            view_opt(r) == self@.path,
    {
        match &self.path {
            Some(s) => Some(s.clone()),
            None => None,
        }
    }

    /// The `Exec` field.
    pub fn exec(&self) -> (r: Option<String>)
        ensures
            view_opt(r) == self@.exec_cmd,
    {
        match &self.exec_cmd {
            Some(s) => Some(s.clone()),
            None => None,
        }
    }

    /// The `Comment` field.
    pub fn comment(&self) -> (r: Option<String>)
        ensures
            view_opt(r) == self@.comment,
    {
        match &self.comment {
            Some(s) => Some(s.clone()),
            None => None,
        }
    }

    /// The `Icon` field.
    pub fn icon(&self) -> (r: Option<String>)
        ensures
            view_opt(r) == self@.icon,
    {
        match &self.icon {
            Some(s) => Some(s.clone()),
            None => None,
        }
    }

    /// The `Terminal` field.
    pub fn terminal(&self) -> (r: Option<bool>)
        ensures
            r == self@.terminal,
    {
        self.terminal
    }

    /// The `Categories` field.
    pub fn categories(&self) -> (r: Option<String>)
        ensures
            view_opt(r) == self@.categories,
    {
        match &self.categories {
            Some(s) => Some(s.clone()),
            None => None,
        }
    }

    /// The sandbox-disabling flag.
    pub fn no_sanbox(&self) -> (r: Option<bool>)
        ensures
            r == self@.no_sanbox,
    {
        self.no_sanbox
    }
}

} // verus!
