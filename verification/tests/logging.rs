use herald::logging::{
    init, log_file_name, log_line, FileLogger, LoggerSlot, LOG_DIR, LOG_FILE, MAX_BACKUPS,
    MAX_LOG_SIZE,
};

fn is_timestamp(text: &str) -> bool {
    let shape: String = text
        .chars()
        .map(|c| if c.is_ascii_digit() { '0' } else { c })
        .collect();
    shape == "0000-00-00 00:00:00.000"
}

#[test]
fn record_holds_time_and_line() {
    let logger = FileLogger::new(());
    assert_eq!(
        logger.write_line("2026-01-02 03:04:05.678", "[cron] Job fired"),
        "2026-01-02 03:04:05.678 [cron] Job fired\n"
    );
}

#[test]
fn free_logger_writes_a_timestamped_line() {
    let logger = FileLogger::new(7u8);
    let record = log_line(LoggerSlot::Free(&logger), "hello").unwrap();
    let (time, line) = record.split_at(23);
    assert!(is_timestamp(time), "{time}");
    assert_eq!(line, " hello\n");
}

#[test]
fn line_is_skipped_without_a_free_logger() {
    assert_eq!(log_line::<u8>(LoggerSlot::Empty, "hello"), None);
    assert_eq!(log_line::<u8>(LoggerSlot::Busy, "hello"), None);
}

#[test]
fn one_line_makes_one_record() {
    let logger = FileLogger::new(());
    let record = log_line(LoggerSlot::Free(&logger), "a b").unwrap();
    assert_eq!(record.matches('\n').count(), 1);
    assert!(record.ends_with('\n'));
}

#[test]
fn rotation_starts_above_ten_megabytes() {
    let logger = FileLogger::new(());
    assert_eq!(MAX_LOG_SIZE, 10_485_760);
    assert!(!logger.wants_rotation(Some(10_485_760)));
    assert!(logger.wants_rotation(Some(10_485_761)));
    assert!(!logger.wants_rotation(Some(0)));
    assert!(!logger.wants_rotation(None));
}

#[test]
fn rotation_size_can_be_chosen() {
    let logger = FileLogger::new('f').with_max_size(100);
    assert_eq!(logger.file, 'f');
    assert!(!logger.wants_rotation(Some(100)));
    assert!(logger.wants_rotation(Some(101)));
}

#[test]
fn rotation_renames_from_the_oldest_down() {
    let renames: Vec<(String, String)> = FileLogger::new(())
        .rotate()
        .into_iter()
        .map(|r| (r.from, r.to))
        .collect();
    let expected = [
        ("herald.log.2", "herald.log.3"),
        ("herald.log.1", "herald.log.2"),
        ("herald.log", "herald.log.1"),
    ];
    assert_eq!(renames.len(), MAX_BACKUPS);
    for (made, wanted) in renames.iter().zip(expected) {
        assert_eq!((made.0.as_str(), made.1.as_str()), wanted);
    }
}

#[test]
fn rotations_keep_three_backups() {
    let mut files = std::collections::BTreeMap::new();
    files.insert("other.txt".to_string(), 99);
    for round in 0..6 {
        files.insert(LOG_FILE.to_string(), round);
        for rename in FileLogger::new(()).rotate() {
            if let Some(content) = files.remove(&rename.from) {
                files.insert(rename.to, content);
            }
        }
    }
    let held: Vec<(&str, i32)> = files.iter().map(|(n, c)| (n.as_str(), *c)).collect();
    assert_eq!(
        held,
        vec![
            ("herald.log.1", 5),
            ("herald.log.2", 4),
            ("herald.log.3", 3),
            ("other.txt", 99),
        ]
    );
}

#[test]
fn log_is_the_end_of_what_was_written() {
    let logger = FileLogger::new(()).with_max_size(60);
    let mut files = std::collections::BTreeMap::new();
    let mut written = String::new();
    for i in 0..40 {
        let record = logger.write_line("2026-01-02 03:04:05.678", &format!("line {i}"));
        written.push_str(&record);
        let current: &mut String = files.entry(log_file_name(0)).or_default();
        current.push_str(&record);
        if logger.wants_rotation(Some(current.len() as u64)) {
            for rename in logger.rotate() {
                if let Some(content) = files.remove(&rename.from) {
                    files.insert(rename.to, content);
                }
            }
            files.insert(log_file_name(0), String::new());
        }
        assert!(files[LOG_FILE].len() <= 60);
    }
    let text: String = (0..=MAX_BACKUPS)
        .rev()
        .filter_map(|i| files.get(&log_file_name(i)).cloned())
        .collect();
    assert!(written.ends_with(&text));
    // Two records fill a file, and the last one written filled the third backup.
    assert_eq!(text.matches('\n').count(), 6);
}

#[test]
fn oldest_backup_stays_where_nothing_takes_its_place() {
    let mut files = std::collections::BTreeMap::new();
    files.insert("herald.log".to_string(), "current");
    files.insert("herald.log.3".to_string(), "oldest");
    for rename in FileLogger::new(()).rotate() {
        if let Some(content) = files.remove(&rename.from) {
            files.insert(rename.to, content);
        }
    }
    assert_eq!(files.get("herald.log.1"), Some(&"current"));
    assert_eq!(files.get("herald.log.3"), Some(&"oldest"));
    assert_eq!(files.len(), 2);
}

#[test]
fn file_names_are_numbered() {
    assert_eq!(LOG_DIR, "logs");
    assert_eq!(log_file_name(0), "herald.log");
    assert_eq!(log_file_name(1), "herald.log.1");
    assert_eq!(log_file_name(120), "herald.log.120");
}

#[test]
fn handle_is_replaced_only_by_a_fresh_one() {
    let mut logger = FileLogger::new(1);
    logger.reopen(None);
    assert_eq!(logger.file, 1);
    logger.reopen(Some(2));
    assert_eq!(logger.file, 2);
}

#[test]
fn first_logger_is_installed() {
    let outcome = init(false, "/data/logs", "/data/logs/herald.log", Ok(()));
    assert!(outcome.install);
    assert_eq!(outcome.notice, "[init] file logging: /data/logs/herald.log");
}

#[test]
fn first_logger_stays() {
    let outcome = init(true, "/data/logs", "/data/logs/herald.log", Ok(()));
    assert!(!outcome.install);
    assert_eq!(outcome.notice, "[init] file logging: /data/logs/herald.log");
}

#[test]
fn failure_to_open_is_a_warning() {
    let outcome = init(
        false,
        "/data/logs",
        "/data/logs/herald.log",
        Err("permission denied".to_string()),
    );
    assert!(!outcome.install);
    assert_eq!(
        outcome.notice,
        "[init] warning: could not initialize file logging at /data/logs: permission denied"
    );
}
