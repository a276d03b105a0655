use filecopyer::processor::format_log_line;
use filecopyer::types::{ClockTime, LogEntry, LogLevel, TimeSource};

fn at(hour: u32, minute: u32, second: u32) -> ClockTime {
    ClockTime { hour, minute, second }
}

#[test]
fn time_source_labels() {
    assert_eq!(TimeSource::Auto.label(), "auto (元数据优先，回退文件时间)");
    assert_eq!(TimeSource::Exif.label(), "exif (仅元数据)");
    assert_eq!(TimeSource::Created.label(), "created (仅创建时间)");
    assert_eq!(TimeSource::Modified.label(), "modified (仅修改时间)");
}

#[test]
fn time_source_all_in_order() {
    assert_eq!(
        TimeSource::all(),
        [TimeSource::Auto, TimeSource::Exif, TimeSource::Created, TimeSource::Modified]
    );
}

#[test]
fn log_entry_tags() {
    let tags: Vec<&str> = [LogLevel::Info, LogLevel::Success, LogLevel::Warn, LogLevel::Error, LogLevel::DryRun]
        .iter()
        .map(|l| LogEntry::new(*l, String::from("m"), at(1, 2, 3)).tag())
        .collect();
    assert_eq!(tags, vec!["INFO", "OK", "WARN", "ERR", "DRY"]);
}

#[test]
fn log_entry_new_stamps_clock_time() {
    let e = LogEntry::new(LogLevel::Warn, String::from("磁盘已满"), at(7, 5, 9));
    assert_eq!(e.level, LogLevel::Warn);
    assert_eq!(e.message, "磁盘已满");
    assert_eq!(e.timestamp, "07:05:09");
    assert_eq!(LogEntry::new(LogLevel::Info, String::new(), at(23, 59, 59)).timestamp, "23:59:59");
    assert_eq!(LogEntry::new(LogLevel::Info, String::new(), at(0, 0, 0)).timestamp, "00:00:00");
}

#[test]
fn log_line_layout() {
    let e = LogEntry { timestamp: String::from("09:08:07"), level: LogLevel::DryRun, message: String::from("预演") };
    assert_eq!(format_log_line(&e), "[09:08:07] [DRY] 预演");
    let e = LogEntry { timestamp: String::from("23:59:59"), level: LogLevel::Success, message: String::new() };
    assert_eq!(format_log_line(&e), "[23:59:59] [OK] ");
}
