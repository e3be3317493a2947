use snapto::dispatch::{clipboard_text, history_entry_for, throughput};
use snapto::{
    build_destination_list, ClipboardCopyMode, Config, Dispatcher, SnaptoError, UploadConfig, UploadResult,
};

fn local(enabled: bool) -> UploadConfig {
    UploadConfig {
        uploader_type: "local".to_string(),
        enabled,
        host: None,
        port: None,
        username: None,
        remote_path: None,
        base_url: None,
        local_path: Some("/tmp".to_string()),
        use_key_auth: None,
        key_path: None,
        timeout: None,
    }
}

fn config_with(uploads: Vec<(&str, UploadConfig)>) -> Config {
    let mut config = Config::default();
    config.uploads = uploads.into_iter().map(|(n, u)| (n.to_string(), u)).collect();
    config
}

fn result(path: &str, url: Option<&str>, size: usize) -> UploadResult {
    UploadResult { remote_path: path.to_string(), url: url.map(|u| u.to_string()), size, duration_ms: 1 }
}

fn names(list: &[&str]) -> Vec<String> {
    list.iter().map(|s| s.to_string()).collect()
}

#[test]
fn destination_list_primary_first_without_duplicates() {
    let extra = names(&["b", "a", "c", "b"]);
    assert_eq!(build_destination_list(&"a".to_string(), false, &extra), names(&["a", "b", "c"]));
    assert_eq!(build_destination_list(&"a".to_string(), true, &extra), names(&["a"]));
    assert_eq!(build_destination_list(&"a".to_string(), false, &vec![]), names(&["a"]));
}

#[test]
fn primary_failure_is_fatal_and_stops_dispatch() {
    let config = config_with(vec![("a", local(true)), ("b", local(true))]);
    let mut d = Dispatcher::new(names(&["a", "b"]));
    let (i, _) = d.next_step(&config).unwrap();
    assert_eq!(i, 0);
    d.record(Err(SnaptoError::Upload("disk full".to_string())));
    assert!(d.next_step(&config).is_none());
    match d.finish() {
        Err(e) => assert_eq!(e, SnaptoError::Upload("disk full".to_string())),
        Ok(_) => panic!("dispatch must fail"),
    }
}

#[test]
fn both_succeed_first_is_primary() {
    let config = config_with(vec![("a", local(true)), ("b", local(true))]);
    let mut d = Dispatcher::new(names(&["a", "b"]));
    let (i, u) = d.next_step(&config).unwrap();
    assert_eq!((i, u.name()), (0, "a"));
    d.record(Ok(result("/x/a.png", Some("U1"), 5)));
    let (j, u) = d.next_step(&config).unwrap();
    assert_eq!((j, u.name()), (1, "b"));
    d.record(Ok(result("/y/a.png", Some("U2"), 5)));
    assert!(d.next_step(&config).is_none());
    let outcome = d.finish().unwrap();
    assert_eq!(outcome.primary_result.url, Some("U1".to_string()));
    assert_eq!(outcome.results.len(), 2);
    assert_eq!(outcome.destination, "a");
    let entry = history_entry_for(&outcome, "a.png", b"12345", 7);
    assert_eq!(entry.destination, "a");
    assert_eq!(entry.size, 5);
}

#[test]
fn secondary_failure_is_recorded_not_fatal() {
    let config = config_with(vec![("a", local(true)), ("b", local(true))]);
    let mut d = Dispatcher::new(names(&["a", "b"]));
    d.next_step(&config).unwrap();
    d.record(Ok(result("/x", None, 1)));
    d.next_step(&config).unwrap();
    d.record(Err(SnaptoError::SshConnection("refused".to_string())));
    assert!(d.next_step(&config).is_none());
    let outcome = d.finish().unwrap();
    assert_eq!(outcome.results.len(), 2);
    assert!(outcome.results[1].result.is_err());
}

#[test]
fn disabled_primary_fails_before_any_upload() {
    let config = config_with(vec![("a", local(false)), ("b", local(true))]);
    let mut d = Dispatcher::new(names(&["a", "b"]));
    assert!(d.next_step(&config).is_none());
    match d.finish() {
        Err(SnaptoError::DestinationDisabled(n)) => assert_eq!(n, "a"),
        other => panic!("unexpected {:?}", other.map(|o| o.destination)),
    }
}

#[test]
fn disabled_secondary_is_skipped() {
    let config = config_with(vec![("a", local(true)), ("b", local(false)), ("c", local(true))]);
    let mut d = Dispatcher::new(names(&["a", "b", "c"]));
    let (i, _) = d.next_step(&config).unwrap();
    assert_eq!(i, 0);
    d.record(Ok(result("/a", None, 3)));
    let (j, _) = d.next_step(&config).unwrap();
    assert_eq!(j, 2);
    d.record(Ok(result("/c", None, 3)));
    assert!(d.next_step(&config).is_none());
    let outcome = d.finish().unwrap();
    assert_eq!(outcome.destination, "a");
    assert_eq!(outcome.skipped, names(&["b"]));
}

#[test]
fn empty_list_gives_no_destinations() {
    let config = config_with(vec![("a", local(true))]);
    let mut d = Dispatcher::new(vec![]);
    assert!(d.next_step(&config).is_none());
    assert!(matches!(d.finish(), Err(SnaptoError::NoDestinationsAvailable)));
}

#[test]
fn missing_destination_is_reported() {
    let config = config_with(vec![("a", local(true))]);
    let mut d = Dispatcher::new(names(&["ghost"]));
    assert!(d.next_step(&config).is_none());
    match d.finish() {
        Err(SnaptoError::DestinationNotFound(n)) => assert_eq!(n, "ghost"),
        other => panic!("unexpected {:?}", other.map(|o| o.destination)),
    }
}

#[test]
fn invalid_destination_fails_preflight() {
    let mut broken = local(true);
    broken.local_path = None;
    let config = config_with(vec![("a", broken)]);
    let mut d = Dispatcher::new(names(&["a"]));
    assert!(d.next_step(&config).is_none());
    assert!(matches!(d.finish(), Err(SnaptoError::Config(_))));
}

#[test]
fn history_size_is_payload_length() {
    let config = config_with(vec![("a", local(true))]);
    let mut d = Dispatcher::new(names(&["a"]));
    d.next_step(&config).unwrap();
    d.record(Ok(result("/a", None, 999)));
    d.next_step(&config);
    let outcome = d.finish().unwrap();
    let payload = vec![0u8; 4096];
    let entry = history_entry_for(&outcome, "x.png", &payload, 0);
    assert_eq!(entry.size, 4096);
    assert_eq!(entry.filename, "x.png");
}

#[test]
fn throughput_guards_zero_duration() {
    assert_eq!(throughput(5000, 0), 5000);
    assert_eq!(throughput(5000, 2000), 2500);
    assert_eq!(throughput(u64::MAX, 1), u64::MAX);
}

#[test]
fn clipboard_text_by_mode() {
    let with_url = result("/p", Some("https://u"), 1);
    let without = result("/p", None, 1);
    assert_eq!(clipboard_text(ClipboardCopyMode::Auto, &with_url), Some("https://u".to_string()));
    assert_eq!(clipboard_text(ClipboardCopyMode::Auto, &without), Some("/p".to_string()));
    assert_eq!(clipboard_text(ClipboardCopyMode::Url, &without), None);
    assert_eq!(clipboard_text(ClipboardCopyMode::Path, &with_url), Some("/p".to_string()));
}
