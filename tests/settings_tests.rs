use snapto::navigation::{get_section_fields, get_uploader_fields, SettingsSection};
use snapto::settings_edit::{
    apply_edit, apply_uploader_edit, cycle_enum_field, cycle_uploader_enum, get_field_value,
    get_uploader_field_value, new_uploader_config, parse_number, toggle_bool_field, toggle_uploader_bool,
};
use snapto::{ClipboardCopyMode, Config, HistoryMode};

#[test]
fn numbers_parse_within_bounds() {
    assert_eq!(parse_number("22", 65535), Some(22));
    assert_eq!(parse_number("+7", 10), Some(7));
    assert_eq!(parse_number("65536", 65535), None);
    assert_eq!(parse_number("1x", 100), None);
    assert_eq!(parse_number("", 100), None);
    assert_eq!(parse_number("18446744073709551615", u64::MAX), Some(u64::MAX));
    assert_eq!(parse_number("18446744073709551616", u64::MAX), None);
}

#[test]
fn general_and_history_edits() {
    let mut config = Config::default();
    apply_edit(&mut config, SettingsSection::General, "default_uploader", "my-server".to_string());
    assert_eq!(config.general.default_uploader, "my-server");
    apply_edit(&mut config, SettingsSection::General, "local_save_dir", String::new());
    assert_eq!(config.general.local_save_dir, None);
    apply_edit(&mut config, SettingsSection::History, "max_entries", "50".to_string());
    assert_eq!(config.history.max_entries, 50);
    apply_edit(&mut config, SettingsSection::History, "max_entries", "lots".to_string());
    assert_eq!(config.history.max_entries, 50);
    assert_eq!(get_field_value(&config, SettingsSection::History, "max_entries"), "50");
    assert_eq!(get_field_value(&config, SettingsSection::Naming, "template"), "screenshot_{date}_{time}");
}

#[test]
fn toggles_and_cycles() {
    let mut config = Config::default();
    toggle_bool_field(&mut config, SettingsSection::History, "enabled");
    assert!(!config.history.enabled);
    toggle_bool_field(&mut config, SettingsSection::Security, "encrypt_credentials");
    assert!(config.security.encrypt_credentials);

    let general = get_section_fields(SettingsSection::General);
    cycle_enum_field(&mut config, SettingsSection::General, "clipboard_copy_mode", &general[2].enum_options);
    assert_eq!(config.general.clipboard_copy_mode, ClipboardCopyMode::Url);
    cycle_enum_field(&mut config, SettingsSection::General, "clipboard_copy_mode", &general[2].enum_options);
    cycle_enum_field(&mut config, SettingsSection::General, "clipboard_copy_mode", &general[2].enum_options);
    assert_eq!(config.general.clipboard_copy_mode, ClipboardCopyMode::Auto);

    let history = get_section_fields(SettingsSection::History);
    cycle_enum_field(&mut config, SettingsSection::History, "mode", &history[1].enum_options);
    assert_eq!(config.history.mode, HistoryMode::Full);
}

#[test]
fn destination_edits() {
    let mut u = new_uploader_config(1);
    assert_eq!(u.uploader_type, "sftp");
    assert_eq!(get_uploader_field_value(&u, "port"), "22");
    apply_uploader_edit(&mut u, "port", "2222".to_string());
    assert_eq!(u.port, Some(2222));
    apply_uploader_edit(&mut u, "port", "99999".to_string());
    assert_eq!(u.port, None);
    assert_eq!(get_uploader_field_value(&u, "port"), "22");
    apply_uploader_edit(&mut u, "host", String::new());
    assert_eq!(u.host, None);
    toggle_uploader_bool(&mut u, "use_key_auth");
    assert_eq!(u.use_key_auth, Some(false));
    let fields = get_uploader_fields("sftp");
    cycle_uploader_enum(&mut u, "type", &fields[1].enum_options);
    assert_eq!(u.uploader_type, "ssh");
    cycle_uploader_enum(&mut u, "type", &fields[1].enum_options);
    assert_eq!(u.uploader_type, "local");
    assert_eq!(new_uploader_config(0).local_path, Some("~/Pictures/Screenshots".to_string()));
}

#[test]
fn destinations_added_and_removed() {
    let mut config = Config::default();
    config.set_upload("new".to_string(), new_uploader_config(2));
    assert!(config.has_upload("new"));
    config.set_upload("local".to_string(), new_uploader_config(1));
    assert_eq!(config.uploads.len(), 3);
    assert!(config.remove_upload(&"new".to_string()));
    assert!(!config.remove_upload(&"new".to_string()));
    assert_eq!(config.uploads.len(), 2);
}
