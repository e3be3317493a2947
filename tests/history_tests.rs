use snapto::history::{
    contains_text, eviction_set, files_to_remove, sanitize_filename, search_entries, storage_plan, thumbnail_filename,
};
use snapto::{HistoryConfig, HistoryEntry, HistoryMode};

fn entry(id: i64, name: &str, url: Option<&str>) -> HistoryEntry {
    HistoryEntry {
        id,
        filename: name.to_string(),
        remote_path: format!("/screenshots/{}", name),
        url: url.map(|u| u.to_string()),
        destination: "my-server".to_string(),
        size: 12345,
        created_at: id,
        thumbnail_path: Some(format!("/t/thumb_{}.png", id)),
        local_copy_path: if id % 2 == 0 { Some(format!("/i/{}", id)) } else { None },
    }
}

fn rows(n: i64) -> Vec<HistoryEntry> {
    (0..n).rev().map(|i| entry(i, &format!("test_{}.png", i), None)).collect()
}

#[test]
fn cleanup_keeps_newest_max_entries() {
    let all = rows(10);
    let evicted = eviction_set(&all, 5);
    assert_eq!(evicted.len(), 5);
    assert_eq!(evicted.iter().map(|e| e.id).collect::<Vec<_>>(), vec![4, 3, 2, 1, 0]);
    let kept: Vec<HistoryEntry> = all[..5].to_vec();
    assert_eq!(eviction_set(&kept, 5).len(), 0);
}

#[test]
fn unbounded_retention_evicts_nothing() {
    assert!(eviction_set(&rows(10), 0).is_empty());
    assert!(eviction_set(&rows(3), 5).is_empty());
}

#[test]
fn evicted_rows_take_their_files() {
    let evicted = eviction_set(&rows(4), 2);
    assert_eq!(files_to_remove(&evicted), vec!["/t/thumb_1.png", "/t/thumb_0.png", "/i/0"]);
}

#[test]
fn search_is_case_sensitive_substring() {
    let list = vec![
        entry(3, "screenshot_test.png", Some("https://example.com/screenshot_test.png")),
        entry(2, "other.png", Some("https://example.com/Screenshot")),
        entry(1, "x.png", Some("https://example.com/my-screenshot")),
    ];
    let found = search_entries(&list, "screenshot");
    assert_eq!(found.iter().map(|e| e.id).collect::<Vec<_>>(), vec![3, 1]);
}

#[test]
fn search_is_capped() {
    let list: Vec<HistoryEntry> = (0..150).map(|i| entry(i, "shot.png", None)).collect();
    assert_eq!(search_entries(&list, "shot").len(), 100);
}

#[test]
fn substring_check() {
    assert!(contains_text("abcdef", "cde"));
    assert!(contains_text("abc", ""));
    assert!(!contains_text("abc", "abcd"));
    assert!(!contains_text("ABC", "abc"));
}

#[test]
fn filenames_are_sanitized() {
    assert_eq!(sanitize_filename("a/b\\c:d*e?f\"g<h>i|j"), "a_b_c_d_e_f_g_h_i_j");
    assert_eq!(thumbnail_filename("shot:1.png"), "thumb_shot_1.png.png");
}

#[test]
fn storage_plan_by_mode() {
    let mut config = HistoryConfig {
        enabled: true,
        mode: HistoryMode::Metadata,
        retention_days: 30,
        max_entries: 100,
        path: "/tmp/h".to_string(),
    };
    let p = storage_plan(&config, true);
    assert!(!p.skip && !p.save_thumbnail && !p.save_full_copy);
    config.mode = HistoryMode::Thumbnails;
    let p = storage_plan(&config, true);
    assert!(p.save_thumbnail && !p.save_full_copy);
    config.mode = HistoryMode::Full;
    let p = storage_plan(&config, true);
    assert!(p.save_thumbnail && p.save_full_copy);
    assert!(!storage_plan(&config, false).save_thumbnail);
    config.enabled = false;
    assert!(storage_plan(&config, true).skip);
}
