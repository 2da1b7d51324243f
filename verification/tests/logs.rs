use panoptic::logs::{latest_log, LogEntry};

fn entry(name: &str, t: u128) -> LogEntry {
    LogEntry { name: name.to_string(), modified_nanos: t }
}

#[test]
fn newest_log_file_is_chosen() {
    let entries = vec![
        entry("panoptic.log.2024-01-01", 10),
        entry("error.log", 99),
        entry("panoptic.log.2024-01-03", 30),
        entry("panoptic.log.2024-01-02", 20),
    ];
    assert_eq!(latest_log(&entries), Ok(2));
}

#[test]
fn equal_times_keep_the_first_listed() {
    let entries = vec![entry("notes.txt", 5), entry("panoptic.log.a", 7), entry("panoptic.log.b", 7)];
    assert_eq!(latest_log(&entries), Ok(1));
}

#[test]
fn no_log_files_is_an_error() {
    let entries = vec![entry("error.log", 1), entry("panoptic.lo", 2)];
    assert_eq!(latest_log(&entries), Err("No log files found".to_string()));
    assert_eq!(latest_log(&Vec::new()), Err("No log files found".to_string()));
}
