use std::collections::HashSet;

use filecopyer::processor::{FileProcessor, FileTimeKind, RunAction, RunEvent, SourceFile};
use filecopyer::layout::PathStyle;
use filecopyer::types::{ClockTime, LogLevel, MediaDateTime, RunOptions, RunSummary, TimeSource};

#[derive(Clone)]
struct FakeFile {
    path: String,
    name: Option<String>,
    contents: Option<Vec<u8>>,
    created: Option<MediaDateTime>,
    modified: Option<MediaDateTime>,
}

fn file(path: &str) -> FakeFile {
    let name = path.rsplit('/').next().unwrap().to_string();
    FakeFile { path: path.to_string(), name: Some(name), contents: None, created: None, modified: None }
}

struct FakeFs {
    source_exists: bool,
    source_is_dir: bool,
    target_exists: bool,
    files: Vec<FakeFile>,
    existing: HashSet<String>,
    fail_target: bool,
    fail_dirs: bool,
    fail_copy: bool,
    fail_rename: bool,
    fail_remove: bool,
}

fn fs(files: Vec<FakeFile>) -> FakeFs {
    FakeFs {
        source_exists: true,
        source_is_dir: true,
        target_exists: true,
        files,
        existing: HashSet::new(),
        fail_target: false,
        fail_dirs: false,
        fail_copy: false,
        fail_rename: false,
        fail_remove: false,
    }
}

fn options(time_source: TimeSource, mv: bool, dry_run: bool) -> RunOptions {
    RunOptions {
        source: String::from("/card"),
        target: String::from("/archive"),
        mv,
        dry_run,
        time_source,
        template: String::from("{YYYY}-{MM}-{DD}"),
    }
}

fn day(y: i32, m: u32, d: u32) -> MediaDateTime {
    MediaDateTime { year: y, month: m, day: d, hour: 10, minute: 0, second: 0 }
}

const NOON: ClockTime = ClockTime { hour: 12, minute: 0, second: 0 };

struct Outcome {
    actions: Vec<String>,
    logs: Vec<(LogLevel, String)>,
    result: Result<RunSummary, String>,
    existing: HashSet<String>,
}

fn run(opts: RunOptions, mut fs: FakeFs) -> Outcome {
    let (mut p, mut action) = FileProcessor::start(opts, PathStyle::Unix);
    let mut actions = Vec::new();
    let mut logs = Vec::new();
    let mut next = 0usize;
    let mut current: Option<FakeFile> = None;
    loop {
        actions.push(format!("{:?}", action));
        let event = match action {
            RunAction::InspectPaths => RunEvent::Paths {
                source_exists: fs.source_exists,
                source_is_dir: fs.source_is_dir,
                target_exists: fs.target_exists,
            },
            RunAction::CreateTarget(_) => RunEvent::Completed(!fs.fail_target),
            RunAction::NextFile => {
                current = fs.files.get(next).cloned();
                next += 1;
                RunEvent::File(current.as_ref().map(|f| SourceFile {
                    display: f.path.clone(),
                    name: f.name.clone(),
                    lossy_name: f.name.clone().unwrap_or_else(|| String::from("\u{FFFD}.jpg")),
                }))
            },
            RunAction::ReadFile => RunEvent::Contents(current.as_ref().unwrap().contents.clone()),
            RunAction::FileTime(FileTimeKind::Created) => RunEvent::Time(current.as_ref().unwrap().created),
            RunAction::FileTime(FileTimeKind::Modified) => RunEvent::Time(current.as_ref().unwrap().modified),
            RunAction::CheckExists(p) => RunEvent::Exists(fs.existing.contains(&p)),
            RunAction::CreateDir(_) => RunEvent::Completed(!fs.fail_dirs),
            RunAction::Copy(p) => {
                if !fs.fail_copy {
                    fs.existing.insert(p);
                }
                RunEvent::Completed(!fs.fail_copy)
            },
            RunAction::Rename(p) => {
                if !fs.fail_rename {
                    fs.existing.insert(p);
                }
                RunEvent::Completed(!fs.fail_rename)
            },
            RunAction::RemoveSource => RunEvent::Completed(!fs.fail_remove),
            RunAction::Finish(result) => {
                return Outcome { actions, logs, result, existing: fs.existing };
            },
        };
        let (np, step) = p.step(event, NOON);
        p = np;
        if let Some(entry) = step.log {
            logs.push((entry.level, entry.message));
        }
        action = step.action;
    }
}

fn summary(scanned: usize, handled: usize, skipped: usize, failed: usize) -> RunSummary {
    RunSummary { scanned, handled, skipped, failed }
}

#[test]
fn missing_source_ends_run() {
    let mut f = fs(vec![]);
    f.source_exists = false;
    let out = run(options(TimeSource::Auto, false, false), f);
    assert_eq!(out.result, Err(String::from("源目录不存在: /card")));
    assert!(out.logs.is_empty());
}

#[test]
fn source_not_a_directory_ends_run() {
    let mut f = fs(vec![]);
    f.source_is_dir = false;
    let out = run(options(TimeSource::Auto, false, false), f);
    assert_eq!(out.result, Err(String::from("源路径不是目录: /card")));
}

#[test]
fn target_is_created_unless_dry_run() {
    let mut f = fs(vec![]);
    f.target_exists = false;
    let out = run(options(TimeSource::Auto, false, false), f);
    assert_eq!(out.actions[1], "CreateTarget(\"/archive\")");
    assert_eq!(out.result, Ok(summary(0, 0, 0, 0)));
    assert_eq!(out.logs, vec![(LogLevel::Info, String::from("完成 扫描=0 处理=0 跳过=0 失败=0"))]);

    let mut f = fs(vec![]);
    f.target_exists = false;
    let out = run(options(TimeSource::Auto, false, true), f);
    assert_eq!(out.actions[1], "NextFile");
}

#[test]
fn target_creation_failure_ends_run() {
    let mut f = fs(vec![]);
    f.target_exists = false;
    f.fail_target = true;
    let out = run(options(TimeSource::Auto, false, false), f);
    assert_eq!(out.result, Err(String::from("无法创建目标目录: /archive")));
}

#[test]
fn copies_by_creation_time_and_skips_others() {
    let mut a = file("/card/DCIM/IMG_1.JPG");
    a.created = Some(day(2024, 3, 5));
    let b = file("/card/notes.txt");
    let out = run(options(TimeSource::Created, false, false), fs(vec![a, b]));
    assert_eq!(out.result, Ok(summary(2, 1, 1, 0)));
    assert_eq!(
        out.logs,
        vec![
            (LogLevel::Success, String::from("复制：从 /card/DCIM/IMG_1.JPG 到 /archive/2024-03-05/IMG_1.JPG")),
            (LogLevel::Info, String::from("完成 扫描=2 处理=1 跳过=1 失败=0")),
        ]
    );
    assert!(out.actions.contains(&String::from("CreateDir(\"/archive/2024-03-05\")")));
    assert!(out.existing.contains("/archive/2024-03-05/IMG_1.JPG"));
}

#[test]
fn existing_names_get_a_suffix() {
    let mut a = file("/card/a.jpg");
    a.modified = Some(day(2024, 1, 2));
    let mut f = fs(vec![a]);
    f.existing.insert(String::from("/archive/2024-01-02/a.jpg"));
    f.existing.insert(String::from("/archive/2024-01-02/a_1.jpg"));
    let out = run(options(TimeSource::Modified, false, false), f);
    assert_eq!(out.result, Ok(summary(1, 1, 0, 0)));
    assert_eq!(out.logs[0].1, "复制：从 /card/a.jpg 到 /archive/2024-01-02/a_2.jpg");
}

#[test]
fn too_many_existing_names_fail_the_file() {
    let mut a = file("/card/a.jpg");
    a.modified = Some(day(2024, 1, 2));
    let mut f = fs(vec![a]);
    f.existing.insert(String::from("/archive/2024-01-02/a.jpg"));
    for i in 1..=9999 {
        f.existing.insert(format!("/archive/2024-01-02/a_{i}.jpg"));
    }
    let out = run(options(TimeSource::Modified, false, false), f);
    assert_eq!(out.result, Ok(summary(1, 0, 0, 1)));
    assert_eq!(
        out.logs[0],
        (LogLevel::Warn, String::from("目标路径构建失败: /card/a.jpg (同名文件过多，无法生成唯一文件名: /card/a.jpg)"))
    );
}

#[test]
fn dry_run_writes_nothing() {
    let mut a = file("/card/a.mov");
    a.created = Some(day(2023, 12, 31));
    let mut f = fs(vec![a]);
    f.target_exists = false;
    let out = run(options(TimeSource::Auto, true, true), f);
    assert_eq!(out.result, Ok(summary(1, 1, 0, 0)));
    assert_eq!(out.logs[0], (LogLevel::DryRun, String::from("预演：从 /card/a.mov 到 /archive/2023-12-31/a.mov")));
    for a in &out.actions {
        assert!(
            !a.starts_with("Create") && !a.starts_with("Copy") && !a.starts_with("Rename") && a != "RemoveSource",
            "{a}"
        );
    }
}

#[test]
fn auto_prefers_metadata_then_created_then_modified() {
    // no readable metadata: falls back to the creation time
    let mut a = file("/card/a.jpg");
    a.contents = Some(b"not an image".to_vec());
    a.created = Some(day(2020, 2, 2));
    a.modified = Some(day(2021, 3, 3));
    // neither metadata nor creation time: modification time
    let mut b = file("/card/b.jpg");
    b.modified = Some(day(2021, 3, 3));
    let out = run(options(TimeSource::Auto, false, true), fs(vec![a, b]));
    assert_eq!(out.logs[0].1, "预演：从 /card/a.jpg 到 /archive/2020-02-02/a.jpg");
    assert_eq!(out.logs[1].1, "预演：从 /card/b.jpg 到 /archive/2021-03-03/b.jpg");
    assert_eq!(
        out.actions.iter().filter(|a| a.starts_with("ReadFile")).count(),
        2
    );
}

#[test]
fn exif_source_uses_metadata_only() {
    let mut a = file("/card/a.jpg");
    a.created = Some(day(2020, 2, 2));
    let out = run(options(TimeSource::Exif, false, false), fs(vec![a]));
    assert_eq!(out.result, Ok(summary(1, 0, 0, 1)));
    assert_eq!(out.logs[0], (LogLevel::Warn, String::from("无法确定日期: /card/a.jpg")));
    assert!(!out.actions.iter().any(|a| a.starts_with("FileTime")));
}

#[test]
fn video_metadata_dates_the_file() {
    let mut mvhd = vec![0u8, 0, 0, 116];
    mvhd.extend_from_slice(b"mvhd");
    mvhd.extend_from_slice(&[0, 0, 0, 0]);
    mvhd.extend_from_slice(&3_600_000_000u32.to_be_bytes());
    mvhd.extend_from_slice(&[0u8; 100]);
    let mut moov = ((mvhd.len() + 8) as u32).to_be_bytes().to_vec();
    moov.extend_from_slice(b"moov");
    moov.extend(mvhd);
    let mut a = file("/card/clip.mp4");
    a.contents = Some(moov);
    a.created = Some(day(2020, 2, 2));
    let out = run(options(TimeSource::Exif, false, true), fs(vec![a]));
    assert_eq!(out.logs[0].1, "预演：从 /card/clip.mp4 到 /archive/2018-01-28/clip.mp4");
}

#[test]
fn template_errors_fail_the_file() {
    let mut a = file("/card/a.jpg");
    a.created = Some(day(2020, 2, 2));
    let mut opts = options(TimeSource::Created, false, false);
    opts.template = String::from("../{YYYY}");
    let out = run(opts, fs(vec![a]));
    assert_eq!(out.result, Ok(summary(1, 0, 0, 1)));
    assert_eq!(
        out.logs[0],
        (LogLevel::Warn, String::from("目录模板生成失败: /card/a.jpg (模板包含非法路径片段: ../2020)"))
    );
}

#[test]
fn undecodable_name_fails_the_file() {
    let mut a = file("/card/x.jpg");
    a.name = None;
    a.created = Some(day(2020, 2, 2));
    let out = run(options(TimeSource::Created, false, false), fs(vec![a]));
    assert_eq!(
        out.logs[0],
        (LogLevel::Warn, String::from("目标路径构建失败: /card/x.jpg (无法解析文件名: /card/x.jpg)"))
    );
}

#[test]
fn day_dir_failure_fails_the_file() {
    let mut a = file("/card/a.jpg");
    a.created = Some(day(2020, 2, 2));
    let mut f = fs(vec![a]);
    f.fail_dirs = true;
    let out = run(options(TimeSource::Created, false, false), f);
    assert_eq!(out.logs[0], (LogLevel::Error, String::from("无法创建日期目录: /archive/2020-02-02")));
    assert_eq!(out.result, Ok(summary(1, 0, 0, 1)));
}

#[test]
fn copy_failure_fails_the_file() {
    let mut a = file("/card/a.jpg");
    a.created = Some(day(2020, 2, 2));
    let mut f = fs(vec![a]);
    f.fail_copy = true;
    let out = run(options(TimeSource::Created, false, false), f);
    assert_eq!(
        out.logs[0],
        (LogLevel::Error, String::from("复制失败：从 /card/a.jpg 到 /archive/2020-02-02/a.jpg"))
    );
}

#[test]
fn move_renames() {
    let mut a = file("/card/a.jpg");
    a.created = Some(day(2020, 2, 2));
    let out = run(options(TimeSource::Created, true, false), fs(vec![a]));
    assert_eq!(out.logs[0], (LogLevel::Success, String::from("移动：从 /card/a.jpg 到 /archive/2020-02-02/a.jpg")));
    assert!(out.actions.contains(&String::from("Rename(\"/archive/2020-02-02/a.jpg\")")));
    assert!(!out.actions.iter().any(|a| a.starts_with("Copy") || a == "RemoveSource"));
}

#[test]
fn move_falls_back_to_copy_and_remove() {
    let mut a = file("/card/a.jpg");
    a.created = Some(day(2020, 2, 2));
    let mut f = fs(vec![a.clone()]);
    f.fail_rename = true;
    let out = run(options(TimeSource::Created, true, false), f);
    assert_eq!(out.logs[0], (LogLevel::Success, String::from("移动：从 /card/a.jpg 到 /archive/2020-02-02/a.jpg")));
    assert!(out.actions.contains(&String::from("RemoveSource")));

    let mut f = fs(vec![a.clone()]);
    f.fail_rename = true;
    f.fail_remove = true;
    let out = run(options(TimeSource::Created, true, false), f);
    assert_eq!(out.logs[0], (LogLevel::Error, String::from("删除源文件失败: /card/a.jpg")));

    let mut f = fs(vec![a]);
    f.fail_rename = true;
    f.fail_copy = true;
    let out = run(options(TimeSource::Created, true, false), f);
    assert_eq!(
        out.logs[0],
        (LogLevel::Error, String::from("跨设备移动失败，复制也失败：从 /card/a.jpg 到 /archive/2020-02-02/a.jpg"))
    );
    assert_eq!(out.result, Ok(summary(1, 0, 0, 1)));
}

#[test]
fn copy_mode_never_moves() {
    let mut files = Vec::new();
    for i in 0..5 {
        let mut f = file(&format!("/card/p{i}.jpg"));
        f.created = Some(day(2020, 1, 1 + i));
        files.push(f);
    }
    let mut f = fs(files);
    f.fail_copy = true;
    let out = run(options(TimeSource::Created, false, false), f);
    assert!(!out.actions.iter().any(|a| a.starts_with("Rename") || a == "RemoveSource"));
}

#[test]
fn every_scanned_file_is_accounted_for() {
    let mut files = Vec::new();
    for i in 0..12u32 {
        let mut f = file(&format!("/card/f{i}.{}", if i % 3 == 0 { "txt" } else { "jpg" }));
        if i % 4 != 1 {
            f.created = Some(day(2020, 1 + i % 12, 1));
        }
        files.push(f);
    }
    let mut f = fs(files);
    f.existing.insert(String::from("/archive/2020-03-01/f2.jpg"));
    let out = run(options(TimeSource::Created, false, false), f);
    let s = out.result.unwrap();
    assert_eq!(s.scanned, 12);
    assert_eq!(s.scanned, s.handled + s.skipped + s.failed);
    assert_eq!(s.skipped, 4);
}

#[test]
fn unexpected_event_repeats_the_request() {
    let (p, action) = FileProcessor::start(options(TimeSource::Auto, false, false), PathStyle::Unix);
    assert!(matches!(action, RunAction::InspectPaths));
    let (p, step) = p.step(RunEvent::Exists(true), NOON);
    assert!(step.log.is_none());
    assert!(matches!(step.action, RunAction::InspectPaths));
    let (p, step) = p.step(RunEvent::Paths { source_exists: true, source_is_dir: true, target_exists: true }, NOON);
    assert!(matches!(step.action, RunAction::NextFile));
    let (p, step) = p.step(RunEvent::File(None), NOON);
    assert!(matches!(step.action, RunAction::Finish(Ok(_))));
    let (_p, step) = p.step(RunEvent::Completed(true), NOON);
    assert!(matches!(step.action, RunAction::Finish(Ok(s)) if s == RunSummary { scanned: 0, handled: 0, skipped: 0, failed: 0 }));
}
