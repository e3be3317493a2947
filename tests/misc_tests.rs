use snapto::navigation::{get_section_fields, get_uploader_fields, EventHandler, FieldType, Screen, SettingsSection};
use snapto::recovery::{AuthRecovery, RecoveryAction, RecoveryEvent, RecoveryState};
use snapto::screenshot::{ImageFormat, ScreenshotConfig, ScreenshotError, ScreenshotManager};
use snapto::watch::ClipboardWatch;
use snapto::SnaptoError;

#[test]
fn test_image_format_extension() {
    assert_eq!(ImageFormat::Png.extension(), "png");
    assert_eq!(ImageFormat::Jpeg.extension(), "jpg");
    assert_eq!(ImageFormat::WebP.extension(), "webp");
}

#[test]
fn screenshot_test_default_config() {
    let config = ScreenshotConfig::default();
    assert_eq!(config.format, ImageFormat::Png);
    assert_eq!(config.quality, 90);
    assert!(!config.include_cursor);
    assert_eq!(config.delay_ms, 0);
}

#[test]
fn screenshot_manager_basics() {
    assert_eq!(ImageFormat::WebP.mime_type(), "image/webp");
    let m = ScreenshotManager::new();
    assert_eq!(m.config().quality, 90);
    assert!(matches!(m.capture_window(3), Err(ScreenshotError::NotSupported)));
    let displays = ScreenshotManager::list_displays().unwrap();
    assert_eq!(displays.len(), 1);
    assert!(displays[0].is_primary);
}

#[test]
fn screens_cycle() {
    assert_eq!(Screen::Home.next(), Screen::History);
    assert_eq!(Screen::Home.prev(), Screen::Upload);
    assert_eq!(Screen::Upload.next().name(), "Home");
    assert_eq!(SettingsSection::Security.next(), SettingsSection::General);
    assert_eq!(SettingsSection::General.prev().name(), "Security");
}

#[test]
fn settings_fields_match_counts() {
    for s in [
        SettingsSection::General,
        SettingsSection::Naming,
        SettingsSection::History,
        SettingsSection::Uploads,
        SettingsSection::Security,
    ] {
        assert_eq!(get_section_fields(s).len(), s.field_count());
    }
    assert_eq!(get_uploader_fields("local").len(), 3);
    let ssh = get_uploader_fields("ssh");
    assert_eq!(ssh.len(), 11);
    assert_eq!(ssh[9].field_type, FieldType::Password);
    assert_eq!(get_uploader_fields("other").len(), 2);
    assert_eq!(EventHandler::new(250).tick_rate_ms(), 250);
}

#[test]
fn recovery_prompts_retries_and_saves() {
    let mut r = AuthRecovery::new("ssh", "box");
    let a = r.step(RecoveryEvent::UploadFailed(SnaptoError::SshAuthentication("denied".to_string())));
    assert!(matches!(a, RecoveryAction::PromptForCredential));
    assert_eq!(r.state(), RecoveryState::AwaitingCredential);
    match r.step(RecoveryEvent::CredentialSubmitted("pw".to_string())) {
        RecoveryAction::RetryWithCredential(p) => assert_eq!(p, "pw"),
        other => panic!("unexpected {:?}", other),
    }
    match r.step(RecoveryEvent::UploadSucceeded) {
        RecoveryAction::SaveCredential { key, password } => {
            assert_eq!(key, "ssh_password_box");
            assert_eq!(password, "pw");
        }
        other => panic!("unexpected {:?}", other),
    }
    assert_eq!(r.state(), RecoveryState::Success);
}

#[test]
fn recovery_second_failure_is_final() {
    let mut r = AuthRecovery::new("sftp", "box");
    r.step(RecoveryEvent::UploadFailed(SnaptoError::SshAuthentication("denied".to_string())));
    r.step(RecoveryEvent::CredentialSubmitted("pw".to_string()));
    match r.step(RecoveryEvent::UploadFailed(SnaptoError::SshAuthentication("again".to_string()))) {
        RecoveryAction::Fail(e) => assert_eq!(e, SnaptoError::SshAuthentication("again".to_string())),
        other => panic!("unexpected {:?}", other),
    }
    assert_eq!(r.state(), RecoveryState::Failed);
    assert!(matches!(r.step(RecoveryEvent::CredentialSubmitted("x".to_string())), RecoveryAction::Nothing));
}

#[test]
fn recovery_cancel_aborts() {
    let mut r = AuthRecovery::new("ssh", "box");
    r.step(RecoveryEvent::UploadFailed(SnaptoError::SshAuthentication("denied".to_string())));
    match r.step(RecoveryEvent::Cancelled) {
        RecoveryAction::Fail(e) => assert_eq!(e, SnaptoError::OperationCancelled),
        other => panic!("unexpected {:?}", other),
    }
    assert_eq!(r.state(), RecoveryState::Idle);
    let mut other = AuthRecovery::new("ssh", "box");
    assert!(matches!(
        other.step(RecoveryEvent::UploadFailed(SnaptoError::SshConnection("down".to_string()))),
        RecoveryAction::Fail(SnaptoError::SshConnection(_))
    ));
}

#[test]
fn watch_triggers_only_on_change() {
    let mut w = ClipboardWatch::new();
    assert!(w.observe_content(b"image-1"));
    assert!(!w.observe_content(b"image-1"));
    assert!(w.observe_content(b"image-2"));
    assert!(w.observe(1));
    assert!(!w.observe(1));
}
