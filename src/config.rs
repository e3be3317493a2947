use vstd::prelude::*;
use crate::error::{message3, invalid_config, SnaptoError};

verus! {

/// Whether a text equals a literal, character for character.
pub fn text_is(s: &String, lit: &str) -> (r: bool)
    ensures
        r == (s@ == lit@),
{
    let t = String::from_str(lit);
    *s == t
}

/// General behaviour after an upload.
#[derive(Debug, Clone)]
pub struct GeneralConfig {
    pub local_save_dir: Option<String>,
    pub copy_url_to_clipboard: bool,
    pub clipboard_copy_mode: ClipboardCopyMode,
    pub show_notifications: bool,
    /// Destination used when none is named explicitly.
    pub default_uploader: String,
    /// Destinations tried after the primary one, in declaration order.
    pub additional_uploaders: Vec<String>,
}

/// What goes to the clipboard after an upload.
#[derive(Debug, Clone, Copy, PartialEq, Eq, Structural)]
pub enum ClipboardCopyMode {
    /// The URL when there is one, else the remote path.
    Auto,
    /// Only the URL; nothing when there is none.
    Url,
    /// Always the remote path.
    Path,
}

impl Default for ClipboardCopyMode {
    fn default() -> (r: Self)
        ensures
            r == ClipboardCopyMode::Auto,
    {
        ClipboardCopyMode::Auto
    }
}

/// How file names are generated.
#[derive(Debug, Clone)]
pub struct NamingConfig {
    pub template: String,
    pub date_format: String,
    pub time_format: String,
    pub default_extension: String,
}

/// Settings of the upload history.
#[derive(Debug, Clone)]
pub struct HistoryConfig {
    pub enabled: bool,
    pub mode: HistoryMode,
    /// Days of retention (0 = forever).
    pub retention_days: u32,
    /// Largest number of rows kept (0 = unbounded).
    pub max_entries: usize,
    /// Directory holding the database and saved images.
    pub path: String,
}

/// What the history keeps besides the row itself.
#[derive(Debug, Clone, Copy, PartialEq, Eq, Structural)]
pub enum HistoryMode {
    Metadata,
    Thumbnails,
    Full,
}

/// One named destination.
#[derive(Debug, Clone)]
pub struct UploadConfig {
    /// Transport kind: `local`, `sftp` or `ssh`.
    pub uploader_type: String,
    pub enabled: bool,
    pub host: Option<String>,
    pub port: Option<u16>,
    pub username: Option<String>,
    pub remote_path: Option<String>,
    pub base_url: Option<String>,
    pub local_path: Option<String>,
    pub use_key_auth: Option<bool>,
    pub key_path: Option<String>,
    /// Connection timeout in seconds.
    pub timeout: Option<u64>,
}

/// Where credentials are kept.
#[derive(Debug, Clone, Copy, PartialEq, Eq, Structural)]
pub struct SecurityConfig {
    pub use_system_keychain: bool,
    pub encrypt_credentials: bool,
}

/// The whole configuration. Destinations keep their declaration order;
/// a name that occurs twice resolves to its first occurrence.
#[derive(Debug, Clone)]
pub struct Config {
    pub general: GeneralConfig,
    pub naming: NamingConfig,
    pub history: HistoryConfig,
    pub uploads: Vec<(String, UploadConfig)>,
    pub security: SecurityConfig,
}

/// `i` is the first position of `name` among the destinations.
pub open spec fn is_first_match(uploads: Seq<(String, UploadConfig)>, name: Seq<char>, i: int) -> bool {
    &&& 0 <= i < uploads.len()
    &&& uploads[i].0@ == name
    &&& forall|j: int| 0 <= j < i ==> uploads[j].0@ != name
}

/// No destination carries `name`.
pub open spec fn is_absent(uploads: Seq<(String, UploadConfig)>, name: Seq<char>) -> bool {
    forall|j: int| 0 <= j < uploads.len() ==> uploads[j].0@ != name
}

/// The transport kinds the library knows.
pub open spec fn is_remote_kind(kind: Seq<char>) -> bool {
    kind == "sftp"@ || kind == "ssh"@
}

/// The fields that a destination of its kind needs are all there.
pub open spec fn transport_ready(u: UploadConfig) -> bool {
    if is_remote_kind(u.uploader_type@) {
        u.host is Some && u.username is Some && u.remote_path is Some
    } else if u.uploader_type@ == "local"@ {
        u.local_path is Some
    } else {
        false
    }
}

/// At least one destination is enabled, the default one exists and is enabled,
/// and every enabled destination is complete for its kind.
pub open spec fn config_valid(c: Config) -> bool {
    &&& exists|i: int| 0 <= i < c.uploads@.len() && (#[trigger] c.uploads@[i]).1.enabled
    &&& exists|i: int| is_first_match(c.uploads@, c.general.default_uploader@, i) && c.uploads@[i].1.enabled
    &&& forall|i: int| 0 <= i < c.uploads@.len() && (#[trigger] c.uploads@[i]).1.enabled
        ==> transport_ready(c.uploads@[i].1)
}

impl Config {
    /// Position of the destination called `name`, if any.
    pub fn find_upload(&self, name: &String) -> (r: Option<usize>)
        ensures
            r matches Some(i) ==> is_first_match(self.uploads@, name@, i as int),
            r is None ==> is_absent(self.uploads@, name@),
    {
        let mut i: usize = 0;
        while i < self.uploads.len()
            invariant
                i <= self.uploads@.len(),
                forall|j: int| 0 <= j < i ==> self.uploads@[j].0@ != name@,
            decreases self.uploads@.len() - i,
        {
            if self.uploads[i].0 == *name {
                return Some(i);
            }
            i = i + 1;
        }
        None
    }

    /// Whether a destination called `name` exists.
    pub fn has_upload(&self, name: &str) -> (r: bool)
        ensures
            r == !is_absent(self.uploads@, name@),
    {
        let n = String::from_str(name);
        match self.find_upload(&n) {
            Some(_) => true,
            None => false,
        }
    }

    /// Path of the history database inside the configuration directory.
    pub fn database_path(config_dir: &str) -> (r: String)
        ensures
            r@ == config_dir@ + "/history.db"@,
    {
        let mut s = String::from_str(config_dir);
        s.append("/history.db");
        s
    }

    /// Checks the configuration: an enabled destination exists, the default one
    /// exists and is enabled, and every enabled one has the fields its kind needs.
    pub fn validate(&self) -> (r: Result<(), SnaptoError>)
        ensures
            r is Ok <==> config_valid(*self),
            r matches Err(e) ==> e matches SnaptoError::Config(crate::error::ConfigError::Invalid(_)),
    {
        let mut any_enabled = false;
        let mut k: usize = 0;
        while k < self.uploads.len()
            invariant
                k <= self.uploads@.len(),
                any_enabled == exists|j: int| 0 <= j < k && (#[trigger] self.uploads@[j]).1.enabled,
            decreases self.uploads@.len() - k,
        {
            if self.uploads[k].1.enabled {
                any_enabled = true;
            }
            k = k + 1;
        }
        if !any_enabled {
            return Err(invalid_config(String::from_str("No enabled uploaders")));
        }
        match self.find_upload(&self.general.default_uploader) {
            Some(d) => {
                if !self.uploads[d].1.enabled {
                    proof {
                        assert forall|i: int| is_first_match(self.uploads@, self.general.default_uploader@, i)
                            implies !self.uploads@[i].1.enabled by {
                            if i < d {
                            } else if i > d {
                            }
                        }
                    }
                    return Err(invalid_config(message3("Default uploader '", self.general.default_uploader.as_str(), "' is disabled")));
                }
            }
            None => {
                return Err(invalid_config(message3("Default uploader '", self.general.default_uploader.as_str(), "' does not exist")));
            }
        }
        let mut i: usize = 0;
        while i < self.uploads.len()
            invariant
                i <= self.uploads@.len(),
                forall|j: int| 0 <= j < i && (#[trigger] self.uploads@[j]).1.enabled ==> transport_ready(self.uploads@[j].1),
            decreases self.uploads@.len() - i,
        {
            let name = &self.uploads[i].0;
            let u = &self.uploads[i].1;
            if u.enabled {
                if text_is(&u.uploader_type, "sftp") || text_is(&u.uploader_type, "ssh") {
                    if u.host.is_none() {
                        return Err(invalid_config(message3("Uploader '", name.as_str(), "': host required")));
                    }
                    if u.username.is_none() {
                        return Err(invalid_config(message3("Uploader '", name.as_str(), "': username required")));
                    }
                    if u.remote_path.is_none() {
                        return Err(invalid_config(message3("Uploader '", name.as_str(), "': remote_path required")));
                    }
                } else if text_is(&u.uploader_type, "local") {
                    if u.local_path.is_none() {
                        return Err(invalid_config(message3("Uploader '", name.as_str(), "': local_path required")));
                    }
                } else {
                    return Err(invalid_config(message3("Uploader '", name.as_str(), "': unsupported type")));
                }
            }
            i = i + 1;
        }
        Ok(())
    }
}

impl UploadConfig {
    /// A destination of the given kind with every optional field unset.
    pub fn empty(uploader_type: String, enabled: bool) -> (r: Self)
        ensures
            r.uploader_type == uploader_type,
            r.enabled == enabled,
            r.host is None && r.port is None && r.username is None && r.remote_path is None,
            r.base_url is None && r.local_path is None && r.use_key_auth is None,
            r.key_path is None && r.timeout is None,
    {
        UploadConfig {
            uploader_type,
            enabled,
            host: None,
            port: None,
            username: None,
            remote_path: None,
            base_url: None,
            local_path: None,
            use_key_auth: None,
            key_path: None,
            timeout: None,
        }
    }
}

impl Default for Config {
    /// A disabled SFTP example called `my-server` and an enabled local
    /// destination called `local`, which is the default.
    fn default() -> (r: Self)
        ensures
            r.uploads@.len() == 2,
            r.uploads@[0].0@ == "my-server"@,
            r.uploads@[1].0@ == "local"@,
            r.general.default_uploader@ == "local"@,
            r.general.additional_uploaders@.len() == 0,
            r.history.enabled && r.history.mode == HistoryMode::Thumbnails,
            r.history.max_entries == 1000,
            r.security.use_system_keychain,
            config_valid(r),
    {
        let mut server = UploadConfig::empty(String::from_str("sftp"), false);
        server.host = Some(String::from_str("example.com"));
        server.port = Some(22);
        server.username = Some(String::from_str("user"));
        server.remote_path = Some(String::from_str("/var/www/screenshots"));
        server.base_url = Some(String::from_str("https://example.com/screenshots"));
        server.use_key_auth = Some(true);
        server.key_path = Some(String::from_str("~/.ssh/id_rsa"));
        server.timeout = Some(30);

        let mut local = UploadConfig::empty(String::from_str("local"), true);
        local.local_path = Some(String::from_str("~/Pictures/Screenshots"));

        let mut uploads: Vec<(String, UploadConfig)> = Vec::new();
        uploads.push((String::from_str("my-server"), server));
        uploads.push((String::from_str("local"), local));

        let r = Config {
            general: GeneralConfig {
                local_save_dir: Some(String::from_str("~/Pictures/SnapTo")),
                copy_url_to_clipboard: true,
                clipboard_copy_mode: ClipboardCopyMode::Auto,
                show_notifications: true,
                default_uploader: String::from_str("local"),
                additional_uploaders: Vec::new(),
            },
            naming: NamingConfig {
                template: String::from_str("screenshot_{date}_{time}"),
                date_format: String::from_str("%Y%m%d"),
                time_format: String::from_str("%H%M%S"),
                default_extension: String::from_str("png"),
            },
            history: HistoryConfig {
                enabled: true,
                mode: HistoryMode::Thumbnails,
                retention_days: 30,
                max_entries: 1000,
                path: String::from_str("~/.snapto"),
            },
            uploads,
            security: SecurityConfig { use_system_keychain: true, encrypt_credentials: false },
        };
        proof {
            reveal_strlit("my-server");
            reveal_strlit("local");
            reveal_strlit("sftp");
            reveal_strlit("ssh");
            assert("my-server"@.len() != "local"@.len());
            assert("local"@.len() != "sftp"@.len() && "local"@.len() != "ssh"@.len());
            assert(r.uploads@[0].0@ != r.general.default_uploader@);
            assert(is_first_match(r.uploads@, r.general.default_uploader@, 1));
            assert(r.uploads@[1].1.enabled);
            assert(transport_ready(r.uploads@[1].1));
        }
        r
    }
}

} // verus!
