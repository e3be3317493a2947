use snapto::{Config, ConfigError, SnaptoError, UploadConfig};

fn local(path: Option<&str>, enabled: bool) -> UploadConfig {
    UploadConfig {
        uploader_type: "local".to_string(),
        enabled,
        host: None,
        port: None,
        username: None,
        remote_path: None,
        base_url: None,
        local_path: path.map(|p| p.to_string()),
        use_key_auth: None,
        key_path: None,
        timeout: None,
    }
}

#[test]
fn config_test_default_config() {
    let config = Config::default();
    assert_eq!(config.general.default_uploader, "local");
    assert!(config.has_upload("local"));
    assert!(config.has_upload("my-server"));
}

#[test]
fn test_config_validation() {
    let config = Config::default();
    assert!(config.validate().is_ok());
}

#[test]
fn validation_rejects_disabled_default() {
    let mut config = Config::default();
    config.uploads[1].1.enabled = false;
    config.uploads[0].1.enabled = true;
    match config.validate() {
        Err(SnaptoError::Config(ConfigError::Invalid(msg))) => assert!(msg.contains("disabled")),
        other => panic!("unexpected {:?}", other),
    }
}

#[test]
fn validation_rejects_missing_default() {
    let mut config = Config::default();
    config.general.default_uploader = "nowhere".to_string();
    assert!(matches!(config.validate(), Err(SnaptoError::Config(ConfigError::Invalid(_)))));
}

#[test]
fn validation_rejects_when_nothing_enabled() {
    let mut config = Config::default();
    config.uploads[1].1.enabled = false;
    let err = config.validate().unwrap_err();
    assert_eq!(err, SnaptoError::Config(ConfigError::Invalid("No enabled uploaders".to_string())));
}

#[test]
fn validation_rejects_incomplete_and_unknown_kinds() {
    let mut config = Config::default();
    config.uploads[1].1 = local(None, true);
    assert!(config.validate().is_err());

    let mut config = Config::default();
    config.uploads[0].1.enabled = true;
    config.uploads[0].1.host = None;
    assert!(config.validate().is_err());

    let mut config = Config::default();
    let mut odd = local(Some("/tmp"), true);
    odd.uploader_type = "ftp".to_string();
    config.uploads.push(("odd".to_string(), odd));
    assert!(config.validate().is_err());
}

#[test]
fn validation_accepts_ssh_kind() {
    let mut config = Config::default();
    config.uploads[0].1.enabled = true;
    config.uploads[0].1.uploader_type = "ssh".to_string();
    assert!(config.validate().is_ok());
}

#[test]
fn find_upload_returns_first_match() {
    let mut config = Config::default();
    config.uploads.push(("local".to_string(), local(Some("/other"), false)));
    assert_eq!(config.find_upload(&"local".to_string()), Some(1));
    assert_eq!(config.find_upload(&"missing".to_string()), None);
}

#[test]
fn database_path_is_inside_config_dir() {
    assert_eq!(Config::database_path("/home/u/.snapto"), "/home/u/.snapto/history.db");
}
