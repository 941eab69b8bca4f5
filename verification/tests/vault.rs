use file_protection::digest::to_hex;
use file_protection::text::{chars_of, contains_chars, find_chars, matches_at};
use file_protection::{
    Alert, BackupError, FileSystemWatcher, RansomwareProtection, Timestamp,
};

fn guard() -> RansomwareProtection {
    RansomwareProtection::new("backups")
}

const MAY_15_2015: i64 = 1431648000;

#[test]
fn backup_path_joins_directory_tag_and_name() {
    assert_eq!(
        guard().backup_path("20240101_120000", "report.txt"),
        "backups/20240101_120000_report.txt"
    );
    assert_eq!(RansomwareProtection::new("/var/vault").backup_path("t", "n"), "/var/vault/t_n");
}

#[test]
fn backup_at_a_given_instant_has_the_utc_tag() {
    let record = guard()
        .create_backup_at("/home/user/report.txt", Timestamp::new(MAY_15_2015, 0))
        .unwrap();
    assert_eq!(record.backup_path, "backups/20150515_000000_report.txt");
    assert_eq!(record.original_path, "/home/user/report.txt");
    assert_eq!(record.timestamp, Timestamp::new(MAY_15_2015, 0));
    assert_eq!(record.content_hash, None);
}

#[test]
fn backup_tag_has_second_resolution() {
    let protection = guard();
    let a = protection.create_backup_at("a.txt", Timestamp::new(MAY_15_2015 + 3661, 0)).unwrap();
    let b = protection
        .create_backup_at("a.txt", Timestamp::new(MAY_15_2015 + 3661, 999_999_999))
        .unwrap();
    assert_eq!(a.backup_path, "backups/20150515_010101_a.txt");
    assert_eq!(b.backup_path, a.backup_path);
}

#[test]
fn backup_at_the_epoch() {
    let record = guard().create_backup_at("x", Timestamp::new(0, 0)).unwrap();
    assert_eq!(record.backup_path, "backups/19700101_000000_x");
}

#[test]
fn backups_one_second_apart_are_distinct() {
    let protection = guard();
    let first = protection.create_backup_at("data/a.txt", Timestamp::new(MAY_15_2015, 0)).unwrap();
    let second =
        protection.create_backup_at("data/a.txt", Timestamp::new(MAY_15_2015 + 1, 0)).unwrap();
    assert_ne!(first.backup_path, second.backup_path);
    assert_eq!(first.backup_path, "backups/20150515_000000_a.txt");
    assert_eq!(second.backup_path, "backups/20150515_000001_a.txt");
}

#[test]
fn backup_uses_the_file_name_only() {
    let record =
        guard().create_backup_at("dir/sub/file.txt", Timestamp::new(MAY_15_2015, 0)).unwrap();
    assert_eq!(record.backup_path, "backups/20150515_000000_file.txt");
    let trailing = guard().create_backup_at("dir/sub/", Timestamp::new(MAY_15_2015, 0)).unwrap();
    assert_eq!(trailing.backup_path, "backups/20150515_000000_sub");
}

#[test]
fn backup_without_file_name_is_invalid_input() {
    let protection = guard();
    let at = Timestamp::new(MAY_15_2015, 0);
    assert_eq!(protection.create_backup_at("", at), Err(BackupError::InvalidInput));
    assert_eq!(protection.create_backup_at("/", at), Err(BackupError::InvalidInput));
    assert_eq!(protection.create_backup_at("dir/..", at), Err(BackupError::InvalidInput));
    assert_eq!(protection.create_backup(""), Err(BackupError::InvalidInput));
    assert_eq!(protection.create_backup("dir/.."), Err(BackupError::InvalidInput));
}

#[test]
fn backup_at_an_instant_without_a_date_is_invalid_input() {
    let protection = guard();
    assert_eq!(
        protection.create_backup_at("a.txt", Timestamp::new(i64::MAX, 0)),
        Err(BackupError::InvalidInput)
    );
    assert_eq!(
        protection.create_backup_at("a.txt", Timestamp::new(i64::MIN, 0)),
        Err(BackupError::InvalidInput)
    );
    assert_eq!(
        protection.create_backup_at("a.txt", Timestamp::new(0, 2_000_000_000)),
        Err(BackupError::InvalidInput)
    );
}

#[test]
fn backup_taken_now_succeeds_for_a_named_file() {
    let record = guard().create_backup("data/b.txt").unwrap();
    assert!(record.backup_path.starts_with("backups/"));
    assert!(record.backup_path.ends_with("_b.txt"));
    assert_eq!(record.backup_path.len(), "backups/".len() + 15 + "_b.txt".len());
    assert_eq!(record.original_path, "data/b.txt");
    assert_eq!(record.content_hash, None);
    let again = guard().create_backup_at("data/b.txt", record.timestamp).unwrap();
    assert_eq!(again, record);
}

#[test]
fn hash_of_known_content() {
    let protection = guard();
    assert_eq!(
        protection.calculate_file_hash(b"hello world"),
        "b94d27b9934d3e08a52e52d7da7dabfac484efe37a5380ee9088f7ace2efcde9"
    );
    assert_eq!(
        protection.calculate_file_hash(b""),
        "e3b0c44298fc1c149afbf4c8996fb92427ae41e4649b934ca495991b7852b855"
    );
    assert_eq!(
        protection.calculate_file_hash(b"abc"),
        "ba7816bf8f01cfea414140de5dae2223b00361a396177a9cb410ff61f20015ad"
    );
}

#[test]
fn hash_is_deterministic() {
    let content = vec![7u8; 4096];
    let first = guard().calculate_file_hash(&content);
    let second = RansomwareProtection::new("elsewhere").calculate_file_hash(&content);
    assert_eq!(first, second);
    assert_eq!(first.len(), 64);
    assert!(first.chars().all(|c| c.is_ascii_digit() || ('a'..='f').contains(&c)));
}

#[test]
fn hash_changes_with_one_byte() {
    let mut content = b"the quick brown fox".to_vec();
    let before = guard().calculate_file_hash(&content);
    content[4] ^= 1;
    let after = guard().calculate_file_hash(&content);
    assert_ne!(before, after);
}

#[test]
fn hex_is_lowercase_with_two_digits_a_byte() {
    assert_eq!(to_hex(&[]), "");
    assert_eq!(to_hex(&[0x00]), "00");
    assert_eq!(to_hex(&[0x00, 0xff, 0x1a, 0xa1, 0x09, 0x90]), "00ff1aa10990");
    assert_eq!(to_hex(&[0xde, 0xad, 0xbe, 0xef]), "deadbeef");
}

#[test]
fn encrypt_raises_a_high_alert() {
    let alert = guard().monitor_file_activity("/data/a.txt", "encrypt").unwrap();
    assert_eq!(alert.severity, "high");
    assert_eq!(alert.event, "suspicious_file_operation");
    assert_eq!(alert.path, "/data/a.txt");
    assert_eq!(alert.operation, "encrypt");
    assert!(alert.entries().is_some());
}

#[test]
fn read_raises_no_alert() {
    assert_eq!(guard().monitor_file_activity("/data/a.txt", "read"), None);
}

#[test]
fn every_suspicious_operation_raises_an_alert() {
    let at = Timestamp::new(MAY_15_2015, 0);
    for operation in ["mass_rename", "encrypt", "delete_many"] {
        let alert = guard().alert_at("p", operation, at);
        assert_eq!(
            alert,
            Some(Alert {
                timestamp: at,
                event: "suspicious_file_operation".to_string(),
                path: "p".to_string(),
                operation: operation.to_string(),
                severity: "high".to_string(),
            })
        );
        assert!(file_protection::activity::is_suspicious(operation));
    }
}

#[test]
fn operations_are_matched_letter_for_letter() {
    let at = Timestamp::new(MAY_15_2015, 0);
    for operation in ["Encrypt", "ENCRYPT", "encrypt ", "", "write", "delete", "mass_renam", "mass_rename2"] {
        assert_eq!(guard().alert_at("p", operation, at), None, "operation {:?}", operation);
        assert!(!file_protection::activity::is_suspicious(operation));
    }
}

fn stamp_of(alert: &Alert) -> Option<String> {
    alert.entries().map(|entries| entries[0].1.clone())
}

#[test]
fn alert_timestamp_is_written_in_rfc3339() {
    let whole = guard().alert_at("p", "encrypt", Timestamp::new(MAY_15_2015, 0)).unwrap();
    assert_eq!(stamp_of(&whole), Some("2015-05-15T00:00:00+00:00".to_string()));
    let half = guard().alert_at("p", "encrypt", Timestamp::new(MAY_15_2015, 500_000_000)).unwrap();
    assert_eq!(stamp_of(&half), Some("2015-05-15T00:00:00.500+00:00".to_string()));
    let fine = guard().alert_at("p", "encrypt", Timestamp::new(MAY_15_2015, 1)).unwrap();
    assert_eq!(stamp_of(&fine), Some("2015-05-15T00:00:00.000000001+00:00".to_string()));
    let lost = guard().alert_at("p", "encrypt", Timestamp::new(i64::MAX, 0)).unwrap();
    assert_eq!(lost.entries(), None);
}

#[test]
fn alert_entries_are_the_five_fields_in_order() {
    let alert =
        guard().alert_at("/data/a.txt", "delete_many", Timestamp::new(MAY_15_2015, 0)).unwrap();
    let pair = |k: &str, v: &str| (k.to_string(), v.to_string());
    assert_eq!(
        alert.entries(),
        Some(vec![
            pair("timestamp", "2015-05-15T00:00:00+00:00"),
            pair("event", "suspicious_file_operation"),
            pair("path", "/data/a.txt"),
            pair("operation", "delete_many"),
            pair("severity", "high"),
        ])
    );
    assert_eq!(
        alert.entries_with("now"),
        vec![
            pair("timestamp", "now"),
            pair("event", "suspicious_file_operation"),
            pair("path", "/data/a.txt"),
            pair("operation", "delete_many"),
            pair("severity", "high"),
        ]
    );
}

#[test]
fn watcher_keeps_its_directories() {
    let dirs = vec!["/home".to_string(), "/srv/data".to_string()];
    let watcher = FileSystemWatcher::new(dirs.clone());
    assert_eq!(watcher.watch_dirs(), &dirs);
    watcher.start_monitoring();
    assert_eq!(watcher.watch_dirs(), &dirs);
    assert!(FileSystemWatcher::new(Vec::new()).watch_dirs().is_empty());
}

#[test]
fn substring_search_finds_the_first_occurrence() {
    let text = chars_of("abcabc");
    assert_eq!(text, vec!['a', 'b', 'c', 'a', 'b', 'c']);
    assert_eq!(find_chars(&text, &chars_of("bc")), Some(1));
    assert_eq!(find_chars(&text, &chars_of("abc")), Some(0));
    assert_eq!(find_chars(&text, &chars_of("cab")), Some(2));
    assert_eq!(find_chars(&text, &chars_of("c")), Some(2));
    assert_eq!(find_chars(&text, &chars_of("")), Some(0));
    assert_eq!(find_chars(&text, &chars_of("abcabc")), Some(0));
    assert_eq!(find_chars(&text, &chars_of("abcabca")), None);
    assert_eq!(find_chars(&text, &chars_of("cb")), None);
    assert_eq!(find_chars(&[], &[]), Some(0));
    assert_eq!(find_chars(&[], &['a']), None);
}

#[test]
fn substring_test_agrees_with_the_search() {
    let text = chars_of("na\u{ef}ve caf\u{e9}");
    assert!(contains_chars(&text, &chars_of("caf\u{e9}")));
    assert!(contains_chars(&text, &chars_of("\u{ef}v")));
    assert!(!contains_chars(&text, &chars_of("cafe")));
    assert!(matches_at(&text, &chars_of("caf\u{e9}"), 6));
    assert!(!matches_at(&text, &chars_of("caf\u{e9}"), 5));
    assert!(!matches_at(&text, &chars_of("caf\u{e9}"), 7));
    assert!(!matches_at(&text, &chars_of("x"), usize::MAX));
    assert!(matches_at(&text, &[], 10));
    assert!(!matches_at(&text, &[], 11));
}
