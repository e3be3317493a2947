use vstd::prelude::*;
use crate::config::{text_is, ClipboardCopyMode, Config, HistoryMode, UploadConfig};
use crate::naming::{all_digits, decimal_text, digits_value, length_digits};
use crate::navigation::SettingsSection;
use crate::upload::{copy_opt, opt_view};

verus! {

/// The number a settings field holds when its text is an optional `+`
/// followed by decimal digits no larger than `max`.
pub open spec fn number_in(s: Seq<char>, max: nat) -> Option<nat> {
    let d = length_digits(s);
    if d.len() > 0 && all_digits(d) && digits_value(d) <= max {
        Some(digits_value(d))
    } else {
        None
    }
}

/// Reads a decimal number of at most `max`, as settings fields are typed.
pub fn parse_number(s: &str, max: u64) -> (r: Option<u64>)
    ensures
        r matches Some(n) ==> number_in(s@, max as nat) == Some(n as nat),
        r is None ==> number_in(s@, max as nat) is None,
{
    let len = s.unicode_len();
    let mut start: usize = 0;
    if len > 0 && s.get_char(0) == '+' {
        start = 1;
    }
    let ghost d = length_digits(s@);
    proof {
        assert(d =~= s@.subrange(start as int, len as int));
    }
    if start == len {
        return None;
    }
    let mut value: u64 = 0;
    let mut too_big = false;
    let mut i: usize = start;
    while i < len
        invariant
            start <= i <= len,
            len == s@.len(),
            d == s@.subrange(start as int, len as int),
            d == length_digits(s@),
            all_digits(s@.subrange(start as int, i as int)),
            too_big <==> digits_value(s@.subrange(start as int, i as int)) > max,
            !too_big ==> value as nat == digits_value(s@.subrange(start as int, i as int)),
        decreases len - i,
    {
        let c = s.get_char(i);
        if c < '0' || c > '9' {
            proof {
                assert(d[i - start] == c);
                assert(!all_digits(d));
            }
            return None;
        }
        let digit: u64 = (c as u32 - '0' as u32) as u64;
        let ghost prev = s@.subrange(start as int, i as int);
        let ghost next = s@.subrange(start as int, i + 1);
        proof {
            assert(next.drop_last() =~= prev);
            assert(next.last() == c);
            assert(digits_value(next) == digits_value(prev) * 10 + digit);
            assert(all_digits(next)) by {
                assert forall|k: int| 0 <= k < next.len() implies '0' <= #[trigger] next[k] <= '9' by {
                    if k < prev.len() {
                        assert(next[k] == prev[k]);
                    }
                }
            }
        }
        if too_big {
            proof {
                assert(digits_value(next) > max) by (nonlinear_arith)
                    requires digits_value(next) == digits_value(prev) * 10 + digit, digits_value(prev) > max;
            }
        } else if digit > max || value > (max - digit) / 10 {
            too_big = true;
            proof {
                assert(digits_value(next) > max) by (nonlinear_arith)
                    requires digits_value(next) == value * 10 + digit, digit > max || value > (max - digit) / 10, digit <= 9;
            }
        } else {
            proof {
                assert(value * 10 + digit <= max) by (nonlinear_arith)
                    requires value <= (max - digit) / 10, digit <= 9;
            }
            value = value * 10 + digit;
        }
        i = i + 1;
    }
    if too_big {
        None
    } else {
        Some(value)
    }
}

/// `None` for an empty text, else the text.
pub open spec fn non_empty(v: Seq<char>) -> Option<Seq<char>> {
    if v.len() == 0 {
        None
    } else {
        Some(v)
    }
}

fn some_if_non_empty(value: String) -> (r: Option<String>)
    ensures
        opt_view(r) == non_empty(value@),
{
    if value.unicode_len() == 0 {
        None
    } else {
        Some(value)
    }
}

/// Text shown for an optional text field.
fn text_or_empty(o: &Option<String>) -> (r: String)
    ensures
        r@ == match opt_view(*o) { Some(v) => v, None => Seq::empty() },
{
    match o {
        Some(s) => s.clone(),
        None => String::new(),
    }
}

/// The field names that one section tells apart are distinct.
proof fn lemma_field_names()
    ensures
        "local_save_dir"@ != "default_uploader"@,
        "template"@ != "date_format"@,
        "template"@ != "time_format"@,
        "template"@ != "default_extension"@,
        "date_format"@ != "time_format"@,
        "date_format"@ != "default_extension"@,
        "time_format"@ != "default_extension"@,
        "retention_days"@ != "max_entries"@,
        "copy_url_to_clipboard"@ != "show_notifications"@,
        "use_system_keychain"@ != "encrypt_credentials"@,
{
    reveal_strlit("local_save_dir");
    reveal_strlit("default_uploader");
    reveal_strlit("template");
    reveal_strlit("date_format");
    reveal_strlit("time_format");
    reveal_strlit("default_extension");
    reveal_strlit("retention_days");
    reveal_strlit("max_entries");
    reveal_strlit("copy_url_to_clipboard");
    reveal_strlit("show_notifications");
    reveal_strlit("enabled");
    reveal_strlit("use_system_keychain");
    reveal_strlit("encrypt_credentials");
    reveal_strlit("clipboard_copy_mode");
    reveal_strlit("mode");
    assert("local_save_dir"@.len() != "default_uploader"@.len());
    assert("template"@.len() != "date_format"@.len());
    assert("template"@.len() != "time_format"@.len());
    assert("template"@.len() != "default_extension"@.len());
    assert("date_format"@[0] != "time_format"@[0]);
    assert("date_format"@.len() != "default_extension"@.len());
    assert("time_format"@.len() != "default_extension"@.len());
    assert("retention_days"@.len() != "max_entries"@.len());
    assert("copy_url_to_clipboard"@.len() != "show_notifications"@.len());
    assert("use_system_keychain"@[0] != "encrypt_credentials"@[0]);
}

/// The text a settings field shows: the current value of text and number
/// fields, empty for the others.
pub fn get_field_value(config: &Config, section: SettingsSection, field_name: &str) -> (r: String)
    ensures
        section == SettingsSection::General && field_name@ == "default_uploader"@ ==> r@ == config.general.default_uploader@,
        section == SettingsSection::Naming && field_name@ == "template"@ ==> r@ == config.naming.template@,
        section == SettingsSection::Naming && field_name@ == "default_extension"@ ==> r@ == config.naming.default_extension@,
        section == SettingsSection::History && field_name@ == "max_entries"@ ==> digits_value(r@) == config.history.max_entries,
        section == SettingsSection::History && field_name@ == "retention_days"@ ==> digits_value(r@) == config.history.retention_days,
        section == SettingsSection::Security || section == SettingsSection::Uploads ==> r@.len() == 0,
{
    proof {
        lemma_field_names();
    }
    let f = String::from_str(field_name);
    match section {
        SettingsSection::General => {
            if text_is(&f, "local_save_dir") {
                text_or_empty(&config.general.local_save_dir)
            } else if text_is(&f, "default_uploader") {
                config.general.default_uploader.clone()
            } else {
                String::new()
            }
        }
        SettingsSection::Naming => {
            if text_is(&f, "template") {
                config.naming.template.clone()
            } else if text_is(&f, "date_format") {
                config.naming.date_format.clone()
            } else if text_is(&f, "time_format") {
                config.naming.time_format.clone()
            } else if text_is(&f, "default_extension") {
                config.naming.default_extension.clone()
            } else {
                String::new()
            }
        }
        SettingsSection::History => {
            if text_is(&f, "retention_days") {
                decimal_text(config.history.retention_days as u64)
            } else if text_is(&f, "max_entries") {
                decimal_text(config.history.max_entries as u64)
            } else {
                String::new()
            }
        }
        _ => String::new(),
    }
}

/// Stores an edited text in a settings field. Numbers that do not parse
/// leave the field as it was; an empty local save directory clears it.
pub fn apply_edit(config: &mut Config, section: SettingsSection, field_name: &str, value: String)
    ensures
        section == SettingsSection::General && field_name@ == "local_save_dir"@ ==>
            opt_view(final(config).general.local_save_dir) == non_empty(value@),
        section == SettingsSection::General && field_name@ == "default_uploader"@ ==>
            final(config).general.default_uploader@ == value@,
        section == SettingsSection::Naming && field_name@ == "template"@ ==> final(config).naming.template@ == value@,
        section == SettingsSection::Naming && field_name@ == "date_format"@ ==> final(config).naming.date_format@ == value@,
        section == SettingsSection::Naming && field_name@ == "time_format"@ ==> final(config).naming.time_format@ == value@,
        section == SettingsSection::Naming && field_name@ == "default_extension"@ ==>
            final(config).naming.default_extension@ == value@,
        section == SettingsSection::History && field_name@ == "retention_days"@ ==>
            final(config).history.retention_days == match number_in(value@, u32::MAX as nat) {
                Some(n) => n as u32,
                None => old(config).history.retention_days,
            },
        section == SettingsSection::History && field_name@ == "max_entries"@ ==>
            final(config).history.max_entries == match number_in(value@, usize::MAX as nat) {
                Some(n) => n as usize,
                None => old(config).history.max_entries,
            },
        final(config).uploads == old(config).uploads,
        final(config).security == old(config).security,
{
    proof {
        lemma_field_names();
    }
    let f = String::from_str(field_name);
    match section {
        SettingsSection::General => {
            if text_is(&f, "local_save_dir") {
                config.general.local_save_dir = some_if_non_empty(value);
            } else if text_is(&f, "default_uploader") {
                config.general.default_uploader = value;
            }
        }
        SettingsSection::Naming => {
            if text_is(&f, "template") {
                config.naming.template = value;
            } else if text_is(&f, "date_format") {
                config.naming.date_format = value;
            } else if text_is(&f, "time_format") {
                config.naming.time_format = value;
            } else if text_is(&f, "default_extension") {
                config.naming.default_extension = value;
            }
        }
        SettingsSection::History => {
            if text_is(&f, "retention_days") {
                match parse_number(value.as_str(), u32::MAX as u64) {
                    Some(n) => config.history.retention_days = n as u32,
                    None => {},
                }
            } else if text_is(&f, "max_entries") {
                match parse_number(value.as_str(), usize::MAX as u64) {
                    Some(n) => config.history.max_entries = n as usize,
                    None => {},
                }
            }
        }
        _ => {},
    }
}

/// Flips a yes/no settings field; other names change nothing.
pub fn toggle_bool_field(config: &mut Config, section: SettingsSection, field_name: &str)
    ensures
        section == SettingsSection::General && field_name@ == "copy_url_to_clipboard"@ ==>
            final(config).general.copy_url_to_clipboard == !old(config).general.copy_url_to_clipboard,
        section == SettingsSection::General && field_name@ == "show_notifications"@ ==>
            final(config).general.show_notifications == !old(config).general.show_notifications,
        section == SettingsSection::History && field_name@ == "enabled"@ ==>
            final(config).history.enabled == !old(config).history.enabled,
        section == SettingsSection::Security && field_name@ == "use_system_keychain"@ ==>
            final(config).security.use_system_keychain == !old(config).security.use_system_keychain,
        section == SettingsSection::Security && field_name@ == "encrypt_credentials"@ ==>
            final(config).security.encrypt_credentials == !old(config).security.encrypt_credentials,
        final(config).uploads == old(config).uploads,
{
    proof {
        lemma_field_names();
    }
    let f = String::from_str(field_name);
    match section {
        SettingsSection::General => {
            if text_is(&f, "copy_url_to_clipboard") {
                config.general.copy_url_to_clipboard = !config.general.copy_url_to_clipboard;
            } else if text_is(&f, "show_notifications") {
                config.general.show_notifications = !config.general.show_notifications;
            }
        }
        SettingsSection::History => {
            if text_is(&f, "enabled") {
                config.history.enabled = !config.history.enabled;
            }
        }
        SettingsSection::Security => {
            if text_is(&f, "use_system_keychain") {
                config.security.use_system_keychain = !config.security.use_system_keychain;
            } else if text_is(&f, "encrypt_credentials") {
                config.security.encrypt_credentials = !config.security.encrypt_credentials;
            }
        }
        _ => {},
    }
}

/// `i` is the first position of `cur` among `opts`, or 0 when it is absent.
pub open spec fn is_position(opts: Seq<&'static str>, cur: Seq<char>, i: int) -> bool {
    ||| (0 <= i < opts.len() && opts[i]@ == cur && forall|j: int| 0 <= j < i ==> opts[j]@ != cur)
    ||| (i == 0 && forall|j: int| 0 <= j < opts.len() ==> opts[j]@ != cur)
}

/// Option name of a clipboard mode.
pub open spec fn copy_mode_name(m: ClipboardCopyMode) -> Seq<char> {
    match m {
        ClipboardCopyMode::Auto => "auto"@,
        ClipboardCopyMode::Url => "url"@,
        ClipboardCopyMode::Path => "path"@,
    }
}

/// Option name of a history mode.
pub open spec fn history_mode_name(m: HistoryMode) -> Seq<char> {
    match m {
        HistoryMode::Metadata => "metadata"@,
        HistoryMode::Thumbnails => "thumbnails"@,
        HistoryMode::Full => "full"@,
    }
}

/// Position of `current` among `opts`, or 0 when absent.
fn position_or_zero(opts: &Vec<&'static str>, current: &str) -> (r: usize)
    requires
        opts@.len() > 0,
    ensures
        r < opts@.len(),
        is_position(opts@, current@, r as int),
{
    let c = String::from_str(current);
    let mut i: usize = 0;
    while i < opts.len()
        invariant
            i <= opts@.len(),
            c@ == current@,
            forall|j: int| 0 <= j < i ==> opts@[j]@ != current@,
        decreases opts@.len() - i,
    {
        if text_is(&c, opts[i]) {
            return i;
        }
        i = i + 1;
    }
    0
}

/// The clipboard mode an option name selects (`auto` for unknown names).
pub open spec fn copy_mode_named(name: Seq<char>) -> ClipboardCopyMode {
    if name == "url"@ {
        ClipboardCopyMode::Url
    } else if name == "path"@ {
        ClipboardCopyMode::Path
    } else {
        ClipboardCopyMode::Auto
    }
}

/// The history mode an option name selects (`metadata` for unknown names).
pub open spec fn history_mode_named(name: Seq<char>) -> HistoryMode {
    if name == "thumbnails"@ {
        HistoryMode::Thumbnails
    } else if name == "full"@ {
        HistoryMode::Full
    } else {
        HistoryMode::Metadata
    }
}

/// Index after `i` among `n` options, wrapping around.
pub open spec fn next_index(i: int, n: int) -> int {
    (i + 1) % n
}

/// Moves a choice field to the option after its current one, wrapping
/// around; a current value not among the options counts as the first.
pub fn cycle_enum_field(config: &mut Config, section: SettingsSection, field_name: &str, options: &Option<Vec<&'static str>>)
    ensures
        final(config).uploads == old(config).uploads,
        final(config).security == old(config).security,
        options is Some && options->Some_0@.len() > 0 && section == SettingsSection::General
            && field_name@ == "clipboard_copy_mode"@ ==> exists|i: int|
                is_position(options->Some_0@, copy_mode_name(old(config).general.clipboard_copy_mode), i)
                && final(config).general.clipboard_copy_mode
                    == copy_mode_named(options->Some_0@[next_index(i, options->Some_0@.len() as int)]@),
        options is Some && options->Some_0@.len() > 0 && section == SettingsSection::History
            && field_name@ == "mode"@ ==> exists|i: int|
                is_position(options->Some_0@, history_mode_name(old(config).history.mode), i)
                && final(config).history.mode
                    == history_mode_named(options->Some_0@[next_index(i, options->Some_0@.len() as int)]@),
{
    let opts = match options {
        Some(o) => o,
        None => return,
    };
    if opts.len() == 0 {
        return;
    }
    proof {
        lemma_field_names();
    }
    let f = String::from_str(field_name);
    match section {
        SettingsSection::General => {
            if text_is(&f, "clipboard_copy_mode") {
                let current = match config.general.clipboard_copy_mode {
                    ClipboardCopyMode::Auto => "auto",
                    ClipboardCopyMode::Url => "url",
                    ClipboardCopyMode::Path => "path",
                };
                proof {
                    reveal_strlit("auto");
                    reveal_strlit("url");
                    reveal_strlit("path");
                }
                let ghost before = config.general.clipboard_copy_mode;
                let idx = position_or_zero(opts, current);
                let next = (idx + 1) % opts.len();
                let chosen = String::from_str(opts[next]);
                config.general.clipboard_copy_mode = if text_is(&chosen, "url") {
                    ClipboardCopyMode::Url
                } else if text_is(&chosen, "path") {
                    ClipboardCopyMode::Path
                } else {
                    ClipboardCopyMode::Auto
                };
                proof {
                    assert(current@ == copy_mode_name(before));
                    assert(is_position(opts@, copy_mode_name(before), idx as int));
                    assert(config.general.clipboard_copy_mode == copy_mode_named(opts@[next_index(idx as int, opts@.len() as int)]@));
                }
            }
        }
        SettingsSection::History => {
            if text_is(&f, "mode") {
                let current = match config.history.mode {
                    HistoryMode::Metadata => "metadata",
                    HistoryMode::Thumbnails => "thumbnails",
                    HistoryMode::Full => "full",
                };
                let ghost before = config.history.mode;
                let idx = position_or_zero(opts, current);
                let next = (idx + 1) % opts.len();
                let chosen = String::from_str(opts[next]);
                config.history.mode = if text_is(&chosen, "thumbnails") {
                    HistoryMode::Thumbnails
                } else if text_is(&chosen, "full") {
                    HistoryMode::Full
                } else {
                    HistoryMode::Metadata
                };
                proof {
                    assert(current@ == history_mode_name(before));
                    assert(is_position(opts@, history_mode_name(before), idx as int));
                    assert(config.history.mode == history_mode_named(opts@[next_index(idx as int, opts@.len() as int)]@));
                }
            }
        }
        _ => {},
    }
}

/// The destination field names are distinct.
proof fn lemma_upload_field_names()
    ensures
        "host"@ != "port"@,
        "host"@ != "username"@,
        "host"@ != "remote_path"@,
        "host"@ != "base_url"@,
        "host"@ != "local_path"@,
        "host"@ != "key_path"@,
        "host"@ != "timeout"@,
        "port"@ != "username"@,
        "port"@ != "remote_path"@,
        "port"@ != "base_url"@,
        "port"@ != "local_path"@,
        "port"@ != "key_path"@,
        "port"@ != "timeout"@,
        "username"@ != "remote_path"@,
        "username"@ != "base_url"@,
        "username"@ != "local_path"@,
        "username"@ != "key_path"@,
        "username"@ != "timeout"@,
        "remote_path"@ != "base_url"@,
        "remote_path"@ != "local_path"@,
        "remote_path"@ != "key_path"@,
        "remote_path"@ != "timeout"@,
        "base_url"@ != "local_path"@,
        "base_url"@ != "key_path"@,
        "base_url"@ != "timeout"@,
        "local_path"@ != "key_path"@,
        "local_path"@ != "timeout"@,
        "key_path"@ != "timeout"@,
        "enabled"@ != "use_key_auth"@,
{
    reveal_strlit("host");
    reveal_strlit("port");
    reveal_strlit("username");
    reveal_strlit("remote_path");
    reveal_strlit("base_url");
    reveal_strlit("local_path");
    reveal_strlit("key_path");
    reveal_strlit("timeout");
    reveal_strlit("enabled");
    reveal_strlit("use_key_auth");
    assert("host"@[0] != "port"@[0]);
    assert("host"@.len() != "username"@.len());
    assert("host"@.len() != "remote_path"@.len());
    assert("host"@.len() != "base_url"@.len());
    assert("host"@.len() != "local_path"@.len());
    assert("host"@.len() != "key_path"@.len());
    assert("host"@.len() != "timeout"@.len());
    assert("port"@.len() != "username"@.len());
    assert("port"@.len() != "remote_path"@.len());
    assert("port"@.len() != "base_url"@.len());
    assert("port"@.len() != "local_path"@.len());
    assert("port"@.len() != "key_path"@.len());
    assert("port"@.len() != "timeout"@.len());
    assert("username"@.len() != "remote_path"@.len());
    assert("username"@[0] != "base_url"@[0]);
    assert("username"@.len() != "local_path"@.len());
    assert("username"@[0] != "key_path"@[0]);
    assert("username"@.len() != "timeout"@.len());
    assert("remote_path"@.len() != "base_url"@.len());
    assert("remote_path"@.len() != "local_path"@.len());
    assert("remote_path"@.len() != "key_path"@.len());
    assert("remote_path"@.len() != "timeout"@.len());
    assert("base_url"@.len() != "local_path"@.len());
    assert("base_url"@[0] != "key_path"@[0]);
    assert("base_url"@.len() != "timeout"@.len());
    assert("local_path"@.len() != "key_path"@.len());
    assert("local_path"@.len() != "timeout"@.len());
    assert("key_path"@.len() != "timeout"@.len());
    assert("enabled"@.len() != "use_key_auth"@.len());
}

/// The text a destination field shows: the value of text fields, the port
/// (22 when unset) and the timeout (30 when unset) in decimal, and nothing
/// for the other fields. A stored password is shown by the caller, which
/// holds the vault.
pub fn get_uploader_field_value(upload: &UploadConfig, field_name: &str) -> (r: String)
    ensures
        field_name@ == "host"@ ==> r@ == match opt_view(upload.host) { Some(v) => v, None => Seq::empty() },
        field_name@ == "username"@ ==> r@ == match opt_view(upload.username) { Some(v) => v, None => Seq::empty() },
        field_name@ == "remote_path"@ ==> r@ == match opt_view(upload.remote_path) { Some(v) => v, None => Seq::empty() },
        field_name@ == "base_url"@ ==> r@ == match opt_view(upload.base_url) { Some(v) => v, None => Seq::empty() },
        field_name@ == "local_path"@ ==> r@ == match opt_view(upload.local_path) { Some(v) => v, None => Seq::empty() },
        field_name@ == "key_path"@ ==> r@ == match opt_view(upload.key_path) { Some(v) => v, None => Seq::empty() },
        field_name@ == "port"@ ==> (upload.port matches Some(p) ==> digits_value(r@) == p)
            && (upload.port is None ==> r@ == "22"@),
        field_name@ == "timeout"@ ==> (upload.timeout matches Some(t) ==> digits_value(r@) == t)
            && (upload.timeout is None ==> r@ == "30"@),
{
    proof {
        lemma_upload_field_names();
    }
    let f = String::from_str(field_name);
    if text_is(&f, "host") {
        text_or_empty(&upload.host)
    }     else if text_is(&f, "username") {
        text_or_empty(&upload.username)
    }     else if text_is(&f, "remote_path") {
        text_or_empty(&upload.remote_path)
    }     else if text_is(&f, "base_url") {
        text_or_empty(&upload.base_url)
    }     else if text_is(&f, "local_path") {
        text_or_empty(&upload.local_path)
    }     else if text_is(&f, "key_path") {
        text_or_empty(&upload.key_path)
    } else if text_is(&f, "port") {
        match upload.port {
            Some(p) => decimal_text(p as u64),
            None => String::from_str("22"),
        }
    } else if text_is(&f, "timeout") {
        match upload.timeout {
            Some(t) => decimal_text(t),
            None => String::from_str("30"),
        }
    } else {
        String::new()
    }
}

/// Stores an edited text in a destination field: an empty text clears an
/// optional field, and a port or timeout that does not parse clears it.
pub fn apply_uploader_edit(upload: &mut UploadConfig, field_name: &str, value: String)
    ensures
        field_name@ == "host"@ ==> opt_view(final(upload).host) == non_empty(value@),
        field_name@ == "username"@ ==> opt_view(final(upload).username) == non_empty(value@),
        field_name@ == "remote_path"@ ==> opt_view(final(upload).remote_path) == non_empty(value@),
        field_name@ == "base_url"@ ==> opt_view(final(upload).base_url) == non_empty(value@),
        field_name@ == "local_path"@ ==> opt_view(final(upload).local_path) == non_empty(value@),
        field_name@ == "key_path"@ ==> opt_view(final(upload).key_path) == non_empty(value@),
        field_name@ == "port"@ ==> final(upload).port == match number_in(value@, u16::MAX as nat) {
            Some(n) => Some(n as u16),
            None => None::<u16>,
        },
        field_name@ == "timeout"@ ==> final(upload).timeout == match number_in(value@, u64::MAX as nat) {
            Some(n) => Some(n as u64),
            None => None::<u64>,
        },
        final(upload).uploader_type == old(upload).uploader_type,
        final(upload).enabled == old(upload).enabled,
{
    proof {
        lemma_upload_field_names();
    }
    let f = String::from_str(field_name);
    if text_is(&f, "host") {
        upload.host = some_if_non_empty(value);
    }     else if text_is(&f, "username") {
        upload.username = some_if_non_empty(value);
    }     else if text_is(&f, "remote_path") {
        upload.remote_path = some_if_non_empty(value);
    }     else if text_is(&f, "base_url") {
        upload.base_url = some_if_non_empty(value);
    }     else if text_is(&f, "local_path") {
        upload.local_path = some_if_non_empty(value);
    }     else if text_is(&f, "key_path") {
        upload.key_path = some_if_non_empty(value);
    } else if text_is(&f, "port") {
        upload.port = match parse_number(value.as_str(), u16::MAX as u64) {
            Some(n) => Some(n as u16),
            None => None,
        };
    } else if text_is(&f, "timeout") {
        upload.timeout = parse_number(value.as_str(), u64::MAX);
    }
}

/// Flips `enabled`, or key authentication (unset counts as on).
pub fn toggle_uploader_bool(upload: &mut UploadConfig, field_name: &str)
    ensures
        field_name@ == "enabled"@ ==> final(upload).enabled == !old(upload).enabled,
        field_name@ == "use_key_auth"@ ==> final(upload).use_key_auth == Some(!match old(upload).use_key_auth {
            Some(b) => b,
            None => true,
        }),
        field_name@ != "enabled"@ ==> final(upload).enabled == old(upload).enabled,
        final(upload).uploader_type == old(upload).uploader_type,
{
    proof {
        lemma_upload_field_names();
    }
    let f = String::from_str(field_name);
    if text_is(&f, "enabled") {
        upload.enabled = !upload.enabled;
    } else if text_is(&f, "use_key_auth") {
        let current = match upload.use_key_auth {
            Some(b) => b,
            None => true,
        };
        upload.use_key_auth = Some(!current);
    }
}

/// Moves the destination kind to the option after the current one,
/// wrapping around; an unknown kind counts as the first option.
pub fn cycle_uploader_enum(upload: &mut UploadConfig, field_name: &str, options: &Option<Vec<&'static str>>)
    ensures
        options is Some && options->Some_0@.len() > 0 && field_name@ == "type"@ ==> exists|i: int|
            is_position(options->Some_0@, old(upload).uploader_type@, i)
            && final(upload).uploader_type@ == options->Some_0@[next_index(i, options->Some_0@.len() as int)]@,
        final(upload).enabled == old(upload).enabled,
{
    let opts = match options {
        Some(o) => o,
        None => return,
    };
    if opts.len() == 0 {
        return;
    }
    let f = String::from_str(field_name);
    if text_is(&f, "type") {
        let idx = position_or_zero(opts, upload.uploader_type.as_str());
        let next = (idx + 1) % opts.len();
        upload.uploader_type = String::from_str(opts[next]);
    }
}

/// Settings of a destination added from the interface: kind 0 is `local`,
/// 1 is `sftp`, anything else `ssh`; remote kinds get example values.
pub fn new_uploader_config(kind_index: usize) -> (r: UploadConfig)
    ensures
        kind_index == 0 ==> r.uploader_type@ == "local"@ && r.local_path is Some && r.host is None,
        kind_index == 1 ==> r.uploader_type@ == "sftp"@,
        kind_index > 1 ==> r.uploader_type@ == "ssh"@,
        kind_index > 0 ==> r.host is Some && r.port == Some(22u16) && r.username is Some && r.remote_path is Some
            && r.use_key_auth == Some(true) && r.key_path is Some && r.timeout == Some(30u64) && r.local_path is None,
        r.enabled,
        r.base_url is None,
{
    if kind_index == 0 {
        let mut u = UploadConfig::empty(String::from_str("local"), true);
        u.local_path = Some(String::from_str("~/Pictures/Screenshots"));
        u
    } else {
        let kind = if kind_index == 1 { String::from_str("sftp") } else { String::from_str("ssh") };
        let mut u = UploadConfig::empty(kind, true);
        u.host = Some(String::from_str("example.com"));
        u.port = Some(22);
        u.username = Some(String::from_str("user"));
        u.remote_path = Some(String::from_str("/path/to/uploads"));
        u.use_key_auth = Some(true);
        u.key_path = Some(String::from_str("~/.ssh/id_rsa"));
        u.timeout = Some(30);
        u
    }
}

impl Config {
    /// Sets the destination called `name`, replacing its first occurrence or
    /// adding it at the end.
    pub fn set_upload(&mut self, name: String, upload: UploadConfig)
        ensures
            crate::dispatch::entry_of(*final(self), name@) == Some(upload),
            final(self).general == old(self).general,
    {
        match self.find_upload(&name) {
            Some(i) => {
                self.uploads.set(i, (name, upload));
                proof {
                    assert(crate::config::is_first_match(self.uploads@, name@, i as int));
                    crate::dispatch::lemma_entry_of(*self, name@, i as int);
                }
            }
            None => {
                let ghost n = name@;
                self.uploads.push((name, upload));
                proof {
                    let k = (self.uploads@.len() - 1) as int;
                    assert(crate::config::is_first_match(self.uploads@, n, k));
                    crate::dispatch::lemma_entry_of(*self, n, k);
                }
            }
        }
    }

    /// Removes the destination called `name` (its first occurrence); `true`
    /// when there was one.
    pub fn remove_upload(&mut self, name: &String) -> (r: bool)
        ensures
            r == !crate::config::is_absent(old(self).uploads@, name@),
            r ==> final(self).uploads@.len() == old(self).uploads@.len() - 1,
            !r ==> final(self).uploads@ == old(self).uploads@,
            final(self).general == old(self).general,
    {
        match self.find_upload(name) {
            Some(i) => {
                self.uploads.remove(i);
                true
            }
            None => false,
        }
    }
}

} // verus!
