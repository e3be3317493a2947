use vstd::prelude::*;

verus! {

/// The screens of the interactive interface, in tab order.
#[derive(Debug, Clone, Copy, PartialEq, Eq, Structural)]
pub enum Screen {
    Home,
    History,
    Settings,
    Upload,
}

/// Position of a screen in tab order.
pub open spec fn screen_index(s: Screen) -> int {
    match s {
        Screen::Home => 0,
        Screen::History => 1,
        Screen::Settings => 2,
        Screen::Upload => 3,
    }
}

impl Screen {
    /// The following screen, wrapping around.
    pub fn next(&self) -> (r: Self)
        ensures
            screen_index(r) == (screen_index(*self) + 1) % 4,
    {
        match self {
            Screen::Home => Screen::History,
            Screen::History => Screen::Settings,
            Screen::Settings => Screen::Upload,
            Screen::Upload => Screen::Home,
        }
    }

    /// The preceding screen, wrapping around.
    pub fn prev(&self) -> (r: Self)
        ensures
            screen_index(r) == (screen_index(*self) + 3) % 4,
    {
        match self {
            Screen::Home => Screen::Upload,
            Screen::History => Screen::Home,
            Screen::Settings => Screen::History,
            Screen::Upload => Screen::Settings,
        }
    }

    pub fn name(&self) -> (r: &'static str)
        ensures
            *self == Screen::Home ==> r@ == "Home"@,
            *self == Screen::History ==> r@ == "History"@,
            *self == Screen::Settings ==> r@ == "Settings"@,
            *self == Screen::Upload ==> r@ == "Upload"@,
    {
        match self {
            Screen::Home => "Home",
            Screen::History => "History",
            Screen::Settings => "Settings",
            Screen::Upload => "Upload",
        }
    }
}

/// The sections of the settings screen, in tab order.
#[derive(Debug, Clone, Copy, PartialEq, Eq, Structural)]
pub enum SettingsSection {
    General,
    Naming,
    History,
    Uploads,
    Security,
}

/// Position of a section in tab order.
pub open spec fn section_index(s: SettingsSection) -> int {
    match s {
        SettingsSection::General => 0,
        SettingsSection::Naming => 1,
        SettingsSection::History => 2,
        SettingsSection::Uploads => 3,
        SettingsSection::Security => 4,
    }
}

/// Number of editable fields of a section; destinations are edited apart.
pub open spec fn section_field_count(s: SettingsSection) -> nat {
    match s {
        SettingsSection::General => 5,
        SettingsSection::Naming => 4,
        SettingsSection::History => 4,
        SettingsSection::Uploads => 0,
        SettingsSection::Security => 2,
    }
}

impl SettingsSection {
    pub fn next(&self) -> (r: Self)
        ensures
            section_index(r) == (section_index(*self) + 1) % 5,
    {
        match self {
            SettingsSection::General => SettingsSection::Naming,
            SettingsSection::Naming => SettingsSection::History,
            SettingsSection::History => SettingsSection::Uploads,
            SettingsSection::Uploads => SettingsSection::Security,
            SettingsSection::Security => SettingsSection::General,
        }
    }

    pub fn prev(&self) -> (r: Self)
        ensures
            section_index(r) == (section_index(*self) + 4) % 5,
    {
        match self {
            SettingsSection::General => SettingsSection::Security,
            SettingsSection::Naming => SettingsSection::General,
            SettingsSection::History => SettingsSection::Naming,
            SettingsSection::Uploads => SettingsSection::History,
            SettingsSection::Security => SettingsSection::Uploads,
        }
    }

    pub fn name(&self) -> (r: &'static str)
        ensures
            *self == SettingsSection::General ==> r@ == "General"@,
            *self == SettingsSection::Naming ==> r@ == "Naming"@,
            *self == SettingsSection::History ==> r@ == "History"@,
            *self == SettingsSection::Uploads ==> r@ == "Uploads"@,
            *self == SettingsSection::Security ==> r@ == "Security"@,
    {
        match self {
            SettingsSection::General => "General",
            SettingsSection::Naming => "Naming",
            SettingsSection::History => "History",
            SettingsSection::Uploads => "Uploads",
            SettingsSection::Security => "Security",
        }
    }

    pub fn field_count(&self) -> (r: usize)
        ensures
            r == section_field_count(*self),
    {
        match self {
            SettingsSection::General => 5,
            SettingsSection::Naming => 4,
            SettingsSection::History => 4,
            SettingsSection::Uploads => 0,
            SettingsSection::Security => 2,
        }
    }
}

/// How a settings field is edited.
#[derive(Debug, Clone, Copy, PartialEq, Eq, Structural)]
pub enum FieldType {
    Text,
    Bool,
    Number,
    Enum,
    Password,
}

/// One editable settings field.
#[derive(Debug, Clone)]
pub struct SettingsField {
    pub name: &'static str,
    pub label: &'static str,
    pub field_type: FieldType,
    pub enum_options: Option<Vec<&'static str>>,
}

/// The field has this name and type.
pub open spec fn field_is(f: SettingsField, name: Seq<char>, t: FieldType) -> bool {
    f.name@ == name && f.field_type == t
}

impl SettingsField {
    pub fn text(name: &'static str, label: &'static str) -> (r: Self)
        ensures
            r.name == name && r.label == label && r.field_type == FieldType::Text && r.enum_options is None,
    {
        SettingsField { name, label, field_type: FieldType::Text, enum_options: None }
    }

    pub fn bool(name: &'static str, label: &'static str) -> (r: Self)
        ensures
            r.name == name && r.label == label && r.field_type == FieldType::Bool && r.enum_options is None,
    {
        SettingsField { name, label, field_type: FieldType::Bool, enum_options: None }
    }

    pub fn number(name: &'static str, label: &'static str) -> (r: Self)
        ensures
            r.name == name && r.label == label && r.field_type == FieldType::Number && r.enum_options is None,
    {
        SettingsField { name, label, field_type: FieldType::Number, enum_options: None }
    }

    pub fn password(name: &'static str, label: &'static str) -> (r: Self)
        ensures
            r.name == name && r.label == label && r.field_type == FieldType::Password && r.enum_options is None,
    {
        SettingsField { name, label, field_type: FieldType::Password, enum_options: None }
    }

    pub fn enumeration(name: &'static str, label: &'static str, options: Vec<&'static str>) -> (r: Self)
        ensures
            r.name == name && r.label == label && r.field_type == FieldType::Enum && r.enum_options == Some(options),
    {
        SettingsField { name, label, field_type: FieldType::Enum, enum_options: Some(options) }
    }
}

/// The editable fields of a settings section, in display order.
pub fn get_section_fields(section: SettingsSection) -> (r: Vec<SettingsField>)
    ensures
        r@.len() == section_field_count(section),
        section == SettingsSection::General ==> field_is(r@[0], "local_save_dir"@, FieldType::Text)
            && field_is(r@[1], "copy_url_to_clipboard"@, FieldType::Bool)
            && field_is(r@[2], "clipboard_copy_mode"@, FieldType::Enum)
            && field_is(r@[3], "show_notifications"@, FieldType::Bool)
            && field_is(r@[4], "default_uploader"@, FieldType::Text),
        section == SettingsSection::Naming ==> field_is(r@[0], "template"@, FieldType::Text)
            && field_is(r@[1], "date_format"@, FieldType::Text)
            && field_is(r@[2], "time_format"@, FieldType::Text)
            && field_is(r@[3], "default_extension"@, FieldType::Text),
        section == SettingsSection::History ==> field_is(r@[0], "enabled"@, FieldType::Bool)
            && field_is(r@[1], "mode"@, FieldType::Enum)
            && field_is(r@[2], "retention_days"@, FieldType::Number)
            && field_is(r@[3], "max_entries"@, FieldType::Number),
        section == SettingsSection::Security ==> field_is(r@[0], "use_system_keychain"@, FieldType::Bool)
            && field_is(r@[1], "encrypt_credentials"@, FieldType::Bool),
{
    let mut v: Vec<SettingsField> = Vec::new();
    match section {
        SettingsSection::General => {
            v.push(SettingsField::text("local_save_dir", "Local Save Directory"));
            v.push(SettingsField::bool("copy_url_to_clipboard", "Copy URL to Clipboard"));
            let mut opts: Vec<&'static str> = Vec::new();
            opts.push("auto");
            opts.push("url");
            opts.push("path");
            v.push(SettingsField::enumeration("clipboard_copy_mode", "Clipboard Copy Mode", opts));
            v.push(SettingsField::bool("show_notifications", "Show Notifications"));
            v.push(SettingsField::text("default_uploader", "Default Uploader"));
        }
        SettingsSection::Naming => {
            v.push(SettingsField::text("template", "Template"));
            v.push(SettingsField::text("date_format", "Date Format"));
            v.push(SettingsField::text("time_format", "Time Format"));
            v.push(SettingsField::text("default_extension", "Default Extension"));
        }
        SettingsSection::History => {
            v.push(SettingsField::bool("enabled", "Enabled"));
            let mut opts: Vec<&'static str> = Vec::new();
            opts.push("metadata");
            opts.push("thumbnails");
            opts.push("full");
            v.push(SettingsField::enumeration("mode", "Mode", opts));
            v.push(SettingsField::number("retention_days", "Retention Days"));
            v.push(SettingsField::number("max_entries", "Max Entries"));
        }
        SettingsSection::Uploads => {}
        SettingsSection::Security => {
            v.push(SettingsField::bool("use_system_keychain", "Use System Keychain"));
            v.push(SettingsField::bool("encrypt_credentials", "Encrypt Credentials"));
        }
    }
    v
}

/// Number of editable fields of a destination of the given kind.
pub open spec fn uploader_field_count(kind: Seq<char>) -> nat {
    if kind == "local"@ {
        3
    } else if kind == "sftp"@ || kind == "ssh"@ {
        11
    } else {
        2
    }
}

/// The editable fields of a destination of kind `uploader_type`: enabled
/// flag and kind, then the local path, or the remote connection settings.
pub fn get_uploader_fields(uploader_type: &str) -> (r: Vec<SettingsField>)
    ensures
        r@.len() == uploader_field_count(uploader_type@),
        field_is(r@[0], "enabled"@, FieldType::Bool),
        field_is(r@[1], "type"@, FieldType::Enum),
        r@[1].enum_options matches Some(o) && o@.len() == 3 && o@[0]@ == "local"@ && o@[1]@ == "sftp"@ && o@[2]@ == "ssh"@,
        uploader_type@ == "local"@ ==> field_is(r@[2], "local_path"@, FieldType::Text),
        uploader_type@ != "local"@ && (uploader_type@ == "sftp"@ || uploader_type@ == "ssh"@) ==>
            field_is(r@[2], "host"@, FieldType::Text)
            && field_is(r@[3], "port"@, FieldType::Number)
            && field_is(r@[4], "username"@, FieldType::Text)
            && field_is(r@[5], "remote_path"@, FieldType::Text)
            && field_is(r@[6], "base_url"@, FieldType::Text)
            && field_is(r@[7], "use_key_auth"@, FieldType::Bool)
            && field_is(r@[8], "key_path"@, FieldType::Text)
            && field_is(r@[9], "password"@, FieldType::Password)
            && field_is(r@[10], "timeout"@, FieldType::Number),
{
    let mut v: Vec<SettingsField> = Vec::new();
    v.push(SettingsField::bool("enabled", "Enabled"));
    let mut opts: Vec<&'static str> = Vec::new();
    opts.push("local");
    opts.push("sftp");
    opts.push("ssh");
    v.push(SettingsField::enumeration("type", "Type", opts));
    let kind = String::from_str(uploader_type);
    if crate::config::text_is(&kind, "local") {
        v.push(SettingsField::text("local_path", "Local Path"));
    } else if crate::config::text_is(&kind, "sftp") || crate::config::text_is(&kind, "ssh") {
        v.push(SettingsField::text("host", "Host"));
        v.push(SettingsField::number("port", "Port"));
        v.push(SettingsField::text("username", "Username"));
        v.push(SettingsField::text("remote_path", "Remote Path"));
        v.push(SettingsField::text("base_url", "Base URL"));
        v.push(SettingsField::bool("use_key_auth", "Use Key Auth"));
        v.push(SettingsField::text("key_path", "Key Path"));
        v.push(SettingsField::password("password", "Password"));
        v.push(SettingsField::number("timeout", "Timeout (s)"));
    }
    v
}

/// Where the upload shown on the upload screen stands.
#[derive(Debug, Clone)]
pub enum UploadStatus {
    InProgress,
    Success { url: String },
    Error { message: String },
}

/// Paces the interface's event loop.
#[derive(Debug, Clone, Copy)]
pub struct EventHandler {
    tick_rate_ms: u64,
}

impl EventHandler {
    /// A handler that waits at most `tick_rate` milliseconds for input.
    pub fn new(tick_rate: u64) -> (r: Self)
        ensures
            r.spec_tick_rate() == tick_rate,
    {
        EventHandler { tick_rate_ms: tick_rate }
    }

    pub closed spec fn spec_tick_rate(&self) -> u64 {
        self.tick_rate_ms
    }

    pub fn tick_rate_ms(&self) -> (r: u64)
        ensures
            r == self.spec_tick_rate(),
    {
        self.tick_rate_ms
    }
}

} // verus!
