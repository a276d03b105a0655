use filecopyer::cli::{completion_report, Args};
use filecopyer::gui::{accent_color, card_color, tag_color, tally_color, FileCopyerApp};
use filecopyer::theme::{adaptive_palette, Rgb};
use filecopyer::types::{ClockTime, LogEntry, LogLevel, RunSummary, TimeSource, WorkerMessage};

fn entry(level: LogLevel) -> LogEntry {
    LogEntry { timestamp: String::from("00:00:00"), level, message: String::from("x") }
}

#[test]
fn form_defaults() {
    let app = FileCopyerApp::default();
    assert_eq!(app.template, "{YYYY}-{MM}-{DD}");
    assert_eq!(app.time_source, TimeSource::Auto);
    assert!(!app.running && !app.mv && !app.dry_run && !app.show_logs);
    assert!(app.logs.is_empty() && app.summary.is_none() && app.last_dark_mode.is_none());
}

#[test]
fn start_needs_both_paths() {
    let mut app = FileCopyerApp::default();
    app.source = String::from("  ");
    app.target = String::from("/t");
    app.summary = Some(String::from("old"));
    assert!(app.start_task(ClockTime { hour: 8, minute: 30, second: 0 }).is_none());
    assert!(app.show_logs && !app.running && app.summary.is_none());
    assert_eq!(app.logs.len(), 1);
    assert_eq!(app.logs[0].level, LogLevel::Error);
    assert_eq!(app.logs[0].message, "源目录和目标目录都不能为空");
    assert_eq!(app.logs[0].timestamp, "08:30:00");
}

#[test]
fn start_trims_paths_and_clears_log() {
    let mut app = FileCopyerApp::default();
    app.source = String::from(" /card\n");
    app.target = String::from("\t/archive ");
    app.mv = true;
    app.time_source = TimeSource::Modified;
    app.logs.push(entry(LogLevel::Info));
    let opts = app.start_task(ClockTime { hour: 8, minute: 30, second: 0 }).unwrap();
    assert_eq!(opts.source, "/card");
    assert_eq!(opts.target, "/archive");
    assert!(opts.mv && !opts.dry_run);
    assert_eq!(opts.time_source, TimeSource::Modified);
    assert_eq!(opts.template, "{YYYY}-{MM}-{DD}");
    assert!(app.running && app.logs.is_empty());
}

#[test]
fn worker_messages_update_the_form() {
    let mut app = FileCopyerApp::default();
    app.running = true;
    app.poll_worker(vec![WorkerMessage::Log(entry(LogLevel::Success)), WorkerMessage::Log(entry(LogLevel::Warn))]);
    assert!(app.running);
    assert_eq!(app.logs.len(), 2);
    app.poll_worker(vec![WorkerMessage::Done(Ok(RunSummary { scanned: 10, handled: 7, skipped: 2, failed: 1 }))]);
    assert!(!app.running);
    assert_eq!(app.summary.as_deref(), Some("完成: 扫描 10，处理 7，跳过 2，失败 1。"));
    app.running = true;
    app.poll_worker(vec![WorkerMessage::Done(Err(String::from("源目录不存在: /x")))]);
    assert!(!app.running);
    assert_eq!(app.summary.as_deref(), Some("执行失败: 源目录不存在: /x"));
    app.poll_worker(vec![]);
    assert_eq!(app.summary.as_deref(), Some("执行失败: 源目录不存在: /x"));
}

#[test]
fn log_tally() {
    let mut app = FileCopyerApp::default();
    for l in [LogLevel::Success, LogLevel::Success, LogLevel::Warn, LogLevel::Info, LogLevel::DryRun, LogLevel::Error, LogLevel::Error] {
        app.logs.push(entry(l));
    }
    let c = app.log_counts();
    assert_eq!((c.total, c.success, c.dry_run, c.warn, c.error), (7, 2, 1, 1, 2));
}

#[test]
fn theme_is_adapted_once_per_change() {
    let mut app = FileCopyerApp::default();
    assert!(app.sync_dark_mode(true));
    assert!(!app.sync_dark_mode(true));
    assert!(app.sync_dark_mode(false));
    assert_eq!(app.last_dark_mode, Some(false));
}

#[test]
fn colours() {
    assert_eq!(accent_color(true), Rgb { r: 90, g: 170, b: 255 });
    assert_eq!(accent_color(false), Rgb { r: 20, g: 110, b: 210 });
    assert_eq!(card_color(true), Rgb { r: 30, g: 36, b: 48 });
    assert_eq!(tally_color(false), Rgb { r: 60, g: 70, b: 85 });
    assert_eq!(tag_color(LogLevel::Error, false), Rgb { r: 200, g: 45, b: 45 });
    assert_eq!(tag_color(LogLevel::DryRun, true), Rgb { r: 190, g: 170, b: 255 });
    let dark = adaptive_palette(true);
    assert_eq!(dark.selection_stroke, Rgb { r: 255, g: 255, b: 255 });
    assert_eq!(dark.panel_fill, dark.window_fill);
    let light = adaptive_palette(false);
    assert_eq!(light.selection_stroke, Rgb { r: 0, g: 0, b: 0 });
    assert_eq!(light.extreme_bg, Rgb { r: 238, g: 243, b: 250 });
}

#[test]
fn command_line_mode() {
    let mut args = Args {
        source: None,
        target: None,
        mv: false,
        dry_run: false,
        time_source: TimeSource::Auto,
        template: String::from("{YYYY}-{MM}-{DD}"),
        gui: false,
    };
    assert!(args.run_options().is_none());
    args.source = Some(String::from("/card"));
    assert!(args.run_options().is_none());
    args.target = Some(String::from("/archive"));
    args.dry_run = true;
    let o = args.run_options().unwrap();
    assert_eq!((o.source.as_str(), o.target.as_str(), o.dry_run, o.mv), ("/card", "/archive", true, false));
    assert_eq!(o.template, "{YYYY}-{MM}-{DD}");
    args.gui = true;
    assert!(args.run_options().is_none());
}

#[test]
fn closing_report() {
    assert_eq!(
        completion_report(RunSummary { scanned: 120, handled: 100, skipped: 15, failed: 5 }),
        "\n完成: 扫描 120 个文件，处理 100 个媒体文件，跳过 15 个非媒体文件，失败 5 个文件。"
    );
}

#[test]
fn starting_again_while_running_restarts_with_a_fresh_log() {
    let mut app = FileCopyerApp::default();
    app.source = String::from("/card");
    app.target = String::from("/archive");
    assert!(app.start_task(ClockTime { hour: 8, minute: 30, second: 0 }).is_some());
    app.poll_worker(vec![WorkerMessage::Log(entry(LogLevel::Success))]);
    assert_eq!(app.logs.len(), 1);
    let again = app.start_task(ClockTime { hour: 8, minute: 31, second: 0 }).expect("filled paths start a run");
    assert_eq!(again.source, "/card");
    assert!(app.running);
    assert!(app.logs.is_empty());
}

#[test]
fn blank_path_while_running_logs_and_keeps_running() {
    let mut app = FileCopyerApp::default();
    app.source = String::from("/card");
    app.target = String::from("/archive");
    assert!(app.start_task(ClockTime { hour: 8, minute: 30, second: 0 }).is_some());
    app.target = String::from("  ");
    assert!(app.start_task(ClockTime { hour: 8, minute: 31, second: 5 }).is_none());
    assert!(app.running);
    assert!(app.show_logs);
    assert_eq!(app.logs.len(), 1);
    assert_eq!(app.logs[0].level, LogLevel::Error);
    assert_eq!(app.logs[0].message, "源目录和目标目录都不能为空");
    assert_eq!(app.logs[0].timestamp, "08:31:05");
}
