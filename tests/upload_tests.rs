use snapto::upload::{join_path, join_url, next_auth_step, AuthMethod, AuthStep, RemoteDirState};
use snapto::{create_uploader, AnyUploader, LocalUploader, SnaptoError, SshUploader, UploadConfig, Uploader};

fn empty(kind: &str) -> UploadConfig {
    UploadConfig {
        uploader_type: kind.to_string(),
        enabled: true,
        host: None,
        port: None,
        username: None,
        remote_path: None,
        base_url: None,
        local_path: None,
        use_key_auth: None,
        key_path: None,
        timeout: None,
    }
}

fn ssh_config(base_url: Option<&str>) -> UploadConfig {
    UploadConfig {
        uploader_type: "ssh".to_string(),
        enabled: true,
        host: Some("example.com".to_string()),
        port: Some(22),
        username: Some("user".to_string()),
        remote_path: Some("/uploads".to_string()),
        base_url: base_url.map(|b| b.to_string()),
        local_path: None,
        use_key_auth: Some(true),
        key_path: Some("~/.ssh/id_rsa".to_string()),
        timeout: Some(30),
    }
}

struct MockUploader {
    name: String,
    enabled: bool,
}

impl Uploader for MockUploader {
    fn name(&self) -> &str {
        &self.name
    }

    fn is_enabled(&self) -> bool {
        self.enabled
    }

    fn validate(&self) -> Result<(), SnaptoError> {
        Ok(())
    }
}

#[test]
fn test_uploader_info() {
    let uploader = MockUploader { name: "test".to_string(), enabled: true };
    let info = uploader.info();
    assert_eq!(info.name, "test");
    assert!(info.enabled);
}

#[test]
fn test_local_uploader_validation() {
    let config = empty("local");
    let uploader = LocalUploader::new("test".to_string(), config);
    assert!(uploader.validate().is_err());
}

#[test]
fn test_local_uploader_with_valid_config() {
    let path = "/tmp".to_string();
    let mut config = empty("local");
    config.base_url = Some("file://".to_string());
    config.local_path = Some(path);
    let uploader = LocalUploader::new("test".to_string(), config);
    assert!(uploader.validate().is_ok());
    assert_eq!(uploader.name(), "test");
    assert!(uploader.is_enabled());
}

#[test]
fn local_upload_result_carries_url_and_size() {
    let mut config = empty("local");
    config.local_path = Some("/srv/shots".to_string());
    config.base_url = Some("https://cdn.example.com/".to_string());
    let uploader = LocalUploader::new("disk".to_string(), config);
    let r = uploader.finish_upload("/srv/shots/a.png".to_string(), "a.png", 9, 3);
    assert_eq!(r.url, Some("https://cdn.example.com/a.png".to_string()));
    assert_eq!(r.size, 9);
    assert_eq!(r.remote_path, "/srv/shots/a.png");
}

#[test]
fn test_ssh_uploader_validation() {
    let mut config = empty("ssh");
    config.port = Some(22);
    let uploader = SshUploader::new("test".to_string(), config);
    assert!(uploader.validate().is_err());
}

#[test]
fn test_ssh_uploader_with_valid_config() {
    let uploader = SshUploader::new("test".to_string(), ssh_config(Some("https://example.com/uploads")));
    assert!(uploader.validate().is_ok());
    assert_eq!(uploader.name(), "test");
    assert!(uploader.is_enabled());
}

#[test]
fn test_generate_url() {
    let uploader = SshUploader::new("test".to_string(), ssh_config(Some("https://example.com/files")));
    let url = uploader.generate_url("test.png");
    assert_eq!(url, Some("https://example.com/files/test.png".to_string()));
}

#[test]
fn test_generate_url_no_template() {
    let uploader = SshUploader::new("test".to_string(), ssh_config(None));
    let url = uploader.generate_url("test.png");
    assert_eq!(url, None);
}

#[test]
fn key_auth_without_key_path_is_rejected() {
    let mut config = ssh_config(None);
    config.key_path = None;
    assert!(SshUploader::new("s".to_string(), config).validate().is_err());
}

#[test]
fn auth_order_follows_configuration() {
    let key_only = SshUploader::new("s".to_string(), ssh_config(None));
    assert_eq!(key_only.auth_plan(), vec![AuthMethod::PublicKey, AuthMethod::Agent]);
    let key_and_password = SshUploader::new("s".to_string(), ssh_config(None)).with_password("pw".to_string());
    assert_eq!(key_and_password.auth_plan(), vec![AuthMethod::PublicKey, AuthMethod::Password]);
    let mut config = ssh_config(None);
    config.use_key_auth = None;
    let mut plain = SshUploader::new("s".to_string(), config);
    assert_eq!(plain.auth_plan(), vec![AuthMethod::Agent]);
    plain.set_password("pw".to_string());
    assert_eq!(plain.auth_plan(), vec![AuthMethod::Password]);
}

#[test]
fn port_defaults_to_22() {
    let mut config = ssh_config(None);
    config.port = None;
    assert_eq!(SshUploader::new("s".to_string(), config).port(), 22);
    let mut config = ssh_config(None);
    config.port = Some(2222);
    assert_eq!(SshUploader::new("s".to_string(), config).port(), 2222);
}

#[test]
fn remote_directory_decisions() {
    assert_eq!(SshUploader::remote_dir_step(RemoteDirState::Directory), Ok(false));
    assert_eq!(SshUploader::remote_dir_step(RemoteDirState::Missing), Ok(true));
    assert!(matches!(SshUploader::remote_dir_step(RemoteDirState::NotDirectory), Err(SnaptoError::Sftp(_))));
    assert!(SshUploader::after_mkdir(false, true).is_ok());
    assert!(SshUploader::after_mkdir(false, false).is_err());
}

#[test]
fn remote_target_joins_directory_and_name() {
    let uploader = SshUploader::new("s".to_string(), ssh_config(None));
    let (dir, file) = uploader.remote_target("a.png").unwrap();
    assert_eq!(dir, "/uploads");
    assert_eq!(file, "/uploads/a.png");
    assert!(SshUploader::new("s".to_string(), empty("ssh")).remote_target("a.png").is_err());
}

#[test]
fn password_key_names_transport_and_destination() {
    let uploader = SshUploader::new("box".to_string(), ssh_config(None));
    assert_eq!(uploader.password_key(), "ssh_password_box");
    let mut config = ssh_config(None);
    config.uploader_type = "sftp".to_string();
    assert_eq!(SshUploader::new("box".to_string(), config).password_key(), "sftp_password_box");
}

#[test]
fn ssh_password_round_trips_through_vault() {
    let keychain = snapto::KeychainManager::new(
        &snapto::SecurityConfig { use_system_keychain: false, encrypt_credentials: true },
        "/home/t",
        "m".to_string(),
    );
    let uploader = SshUploader::new("box".to_string(), ssh_config(None));
    let store = uploader.store_password_in_keychain(&keychain, None, "hunter2").unwrap().unwrap();
    assert_eq!(uploader.get_password_from_keychain(&keychain, Some(&store)), Some("hunter2".to_string()));
    assert_eq!(uploader.get_password_from_keychain(&keychain, None), None);
}

#[test]
fn create_uploader_by_kind() {
    assert!(matches!(create_uploader("a", &empty("local")), Ok(AnyUploader::Local(_))));
    assert!(matches!(create_uploader("a", &empty("sftp")), Ok(AnyUploader::Ssh(_))));
    assert!(matches!(create_uploader("a", &empty("ssh")), Ok(AnyUploader::Ssh(_))));
    assert!(create_uploader("a", &empty("ftp")).is_err());
}

#[test]
fn url_and_path_joining() {
    assert_eq!(join_url("https://x.org///", "a.png"), "https://x.org/a.png");
    assert_eq!(join_url("", "a.png"), "/a.png");
    assert_eq!(join_path("/up/", "a.png"), "/up/a.png");
    assert_eq!(join_path("", "a.png"), "a.png");
}

#[test]
fn test_sftp_uploader_validation() {
    let mut config = empty("sftp");
    config.port = Some(22);
    let uploader = snapto::SftpUploader::new("test".to_string(), config);
    assert!(uploader.validate().is_err());
}

#[test]
fn test_sftp_uploader_with_valid_config() {
    let mut config = ssh_config(Some("https://example.com/uploads"));
    config.uploader_type = "sftp".to_string();
    let uploader = snapto::SftpUploader::new("test".to_string(), config);
    assert!(uploader.validate().is_ok());
    assert_eq!(uploader.name(), "test");
    assert!(uploader.is_enabled());
}

#[test]
fn auth_steps_stop_at_first_success() {
    let plan = vec![AuthMethod::PublicKey, AuthMethod::Password];
    assert_eq!(next_auth_step(&plan, 0, false), AuthStep::Try(AuthMethod::PublicKey));
    assert_eq!(next_auth_step(&plan, 1, false), AuthStep::Try(AuthMethod::Password));
    assert_eq!(next_auth_step(&plan, 1, true), AuthStep::Authenticated);
    assert_eq!(next_auth_step(&plan, 2, false), AuthStep::Refused);
}
