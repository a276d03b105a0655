//! A run over a source directory as a state machine.
//!
//! The machine decides; the program around it performs. It starts by asking
//! for the state of the source and target paths and then walks the files
//! one at a time: for each it asks for the file's metadata or file times,
//! probes candidate destinations until one is free, and asks for the
//! directory to be made and the file to be copied or moved. Every answer
//! comes back as an event; every step yields at most one log entry and the
//! next action.
use vstd::prelude::*;

use crate::layout::{candidate_path, PathStyle, destination_candidate, max_suffix, render_date_template, spec_render_date_template};
use crate::media_time::{
    detect_date_by_source, detect_media_metadata_date, is_media_file, spec_detect_date, spec_is_media_file,
    spec_metadata_date,
};
use crate::text::{chars_of, decimal, push_all, push_decimal, push_str, string_of};
use crate::types::{ClockTime, LogEntry, LogLevel, MediaDateTime, RunOptions, RunSummary, TimeSource};

verus! {

/// A regular file found below the source directory.
#[derive(Clone, Debug)]
pub struct SourceFile {
    /// The path as it is shown in messages.
    pub display: String,
    /// The file name, where it is valid Unicode.
    pub name: Option<String>,
    /// The file name with any invalid Unicode replaced; it decides whether
    /// the file is a media file.
    pub lossy_name: String,
}

/// The mathematical content of a [`SourceFile`].
pub struct SourceFileView {
    pub display: Seq<char>,
    pub name: Option<Seq<char>>,
    pub lossy_name: Seq<char>,
}

impl View for SourceFile {
    type V = SourceFileView;

    open spec fn view(&self) -> SourceFileView {
        SourceFileView {
            display: self.display@,
            name: match self.name {
                Some(n) => Some(n@),
                None => None,
            },
            lossy_name: self.lossy_name@,
        }
    }
}

/// The mathematical content of [`RunOptions`].
pub struct OptionsView {
    pub source: Seq<char>,
    pub target: Seq<char>,
    pub mv: bool,
    pub dry_run: bool,
    pub time_source: TimeSource,
    pub template: Seq<char>,
}

pub open spec fn options_view(o: RunOptions) -> OptionsView {
    OptionsView {
        source: o.source@,
        target: o.target@,
        mv: o.mv,
        dry_run: o.dry_run,
        time_source: o.time_source,
        template: o.template@,
    }
}

/// Which file system time of the current file is asked for.
#[derive(Clone, Copy, Debug, PartialEq, Eq, Structural)]
pub enum FileTimeKind {
    Created,
    Modified,
}

/// What the machine asks the program to do next.
#[derive(Debug)]
pub enum RunAction {
    /// Report whether the source exists, whether it is a directory, and
    /// whether the target exists.
    InspectPaths,
    /// Create the target directory with its parents.
    CreateTarget(String),
    /// Report the next regular file of the walk below the source.
    NextFile,
    /// Read the contents of the current file.
    ReadFile,
    /// Report a file system time of the current file, in local time.
    FileTime(FileTimeKind),
    /// Report whether a path exists.
    CheckExists(String),
    /// Create a directory with its parents.
    CreateDir(String),
    /// Copy the current file to the path.
    Copy(String),
    /// Rename the current file to the path.
    Rename(String),
    /// Remove the current file.
    RemoveSource,
    /// The run is over, with its summary or the error that ended it.
    Finish(Result<RunSummary, String>),
}

/// The mathematical content of a [`RunAction`].
pub enum ActionView {
    InspectPaths,
    CreateTarget(Seq<char>),
    NextFile,
    ReadFile,
    FileTime(FileTimeKind),
    CheckExists(Seq<char>),
    CreateDir(Seq<char>),
    Copy(Seq<char>),
    Rename(Seq<char>),
    RemoveSource,
    Finish(Result<RunSummary, Seq<char>>),
}

impl View for RunAction {
    type V = ActionView;

    open spec fn view(&self) -> ActionView {
        match self {
            RunAction::InspectPaths => ActionView::InspectPaths,
            RunAction::CreateTarget(p) => ActionView::CreateTarget(p@),
            RunAction::NextFile => ActionView::NextFile,
            RunAction::ReadFile => ActionView::ReadFile,
            RunAction::FileTime(k) => ActionView::FileTime(*k),
            RunAction::CheckExists(p) => ActionView::CheckExists(p@),
            RunAction::CreateDir(p) => ActionView::CreateDir(p@),
            RunAction::Copy(p) => ActionView::Copy(p@),
            RunAction::Rename(p) => ActionView::Rename(p@),
            RunAction::RemoveSource => ActionView::RemoveSource,
            RunAction::Finish(Ok(s)) => ActionView::Finish(Ok(*s)),
            RunAction::Finish(Err(e)) => ActionView::Finish(Err(e@)),
        }
    }
}

/// What the program reports back after performing an action.
#[derive(Debug)]
pub enum RunEvent {
    /// The answer to `InspectPaths`.
    Paths { source_exists: bool, source_is_dir: bool, target_exists: bool },
    /// The answer to `NextFile`: the next file, or `None` at the end.
    File(Option<SourceFile>),
    /// The answer to `ReadFile`: the contents, or `None` if unreadable.
    Contents(Option<Vec<u8>>),
    /// The answer to `FileTime`: the time, or `None` if unavailable.
    Time(Option<MediaDateTime>),
    /// The answer to `CheckExists`.
    Exists(bool),
    /// The answer to the actions that change the file system: whether the
    /// change succeeded.
    Completed(bool),
}

/// The mathematical content of a [`RunEvent`].
pub enum EventView {
    Paths { source_exists: bool, source_is_dir: bool, target_exists: bool },
    File(Option<SourceFileView>),
    Contents(Option<Seq<u8>>),
    Time(Option<MediaDateTime>),
    Exists(bool),
    Completed(bool),
}

impl View for RunEvent {
    type V = EventView;

    open spec fn view(&self) -> EventView {
        match self {
            RunEvent::Paths { source_exists, source_is_dir, target_exists } => EventView::Paths {
                source_exists: *source_exists,
                source_is_dir: *source_is_dir,
                target_exists: *target_exists,
            },
            RunEvent::File(Some(f)) => EventView::File(Some(f@)),
            RunEvent::File(None) => EventView::File(None),
            RunEvent::Contents(Some(c)) => EventView::Contents(Some(c@)),
            RunEvent::Contents(None) => EventView::Contents(None),
            RunEvent::Time(t) => EventView::Time(*t),
            RunEvent::Exists(b) => EventView::Exists(*b),
            RunEvent::Completed(b) => EventView::Completed(*b),
        }
    }
}

/// What one step yields: at most one log entry, and the next action.
#[derive(Debug)]
pub struct RunStep {
    pub log: Option<LogEntry>,
    pub action: RunAction,
}

/// The level and message of a step's log entry.
pub open spec fn log_view(log: Option<LogEntry>) -> Option<(LogLevel, Seq<char>)> {
    match log {
        Some(l) => Some((l.level, l.message@)),
        None => None,
    }
}

/// Where the machine is.
#[derive(Debug)]
enum Stage {
    AwaitPaths,
    AwaitTarget,
    AwaitFile,
    AwaitContents { file: SourceFile },
    AwaitTime { file: SourceFile, kind: FileTimeKind },
    AwaitExists { file: SourceFile, day_dir: Vec<char>, name: Vec<char>, index: u64, candidate: Vec<char> },
    AwaitDayDir { file: SourceFile, day_dir: Vec<char>, dst: Vec<char> },
    AwaitCopy { file: SourceFile, dst: Vec<char> },
    AwaitRename { file: SourceFile, dst: Vec<char> },
    AwaitMoveCopy { file: SourceFile, dst: Vec<char> },
    AwaitRemove { file: SourceFile, dst: Vec<char> },
    Finished { error: Option<Vec<char>> },
}

/// The mathematical content of the machine's stage.
pub enum StageView {
    /// Waiting for the state of the source and target paths.
    AwaitPaths,
    /// Waiting for the target directory to be made.
    AwaitTarget,
    /// Waiting for the next file.
    AwaitFile,
    /// Waiting for the contents of a media file.
    AwaitContents { file: SourceFileView },
    /// Waiting for a file system time of a media file.
    AwaitTime { file: SourceFileView, kind: FileTimeKind },
    /// Waiting to learn whether candidate `index` exists.
    AwaitExists {
        file: SourceFileView,
        day_dir: Seq<char>,
        name: Seq<char>,
        index: nat,
        candidate: Seq<char>,
    },
    /// Waiting for the dated directory to be made.
    AwaitDayDir { file: SourceFileView, day_dir: Seq<char>, dst: Seq<char> },
    /// Waiting for a copy (copy mode).
    AwaitCopy { file: SourceFileView, dst: Seq<char> },
    /// Waiting for a rename (move mode).
    AwaitRename { file: SourceFileView, dst: Seq<char> },
    /// Waiting for the copy that stands in for a failed rename.
    AwaitMoveCopy { file: SourceFileView, dst: Seq<char> },
    /// Waiting for the source to be removed after that copy.
    AwaitRemove { file: SourceFileView, dst: Seq<char> },
    /// The run is over; `error` holds what ended it early.
    Finished { error: Option<Seq<char>> },
}

/// The mathematical content of a [`FileProcessor`].
pub struct RunState {
    pub opts: OptionsView,
    /// The path rules of the platform.
    pub style: PathStyle,
    pub summary: RunSummary,
    pub stage: StageView,
}

/// What a step does: the next state, the log entry's level and message,
/// and the next action.
pub struct StepView {
    pub state: RunState,
    pub log: Option<(LogLevel, Seq<char>)>,
    pub action: ActionView,
}

// ---------------------------------------------------------------------
// Messages
// ---------------------------------------------------------------------

pub open spec fn err_no_source(source: Seq<char>) -> Seq<char> {
    "源目录不存在: "@ + source
}

pub open spec fn err_source_not_dir(source: Seq<char>) -> Seq<char> {
    "源路径不是目录: "@ + source
}

pub open spec fn err_target_not_created(target: Seq<char>) -> Seq<char> {
    "无法创建目标目录: "@ + target
}

pub open spec fn msg_no_date(src: Seq<char>) -> Seq<char> {
    "无法确定日期: "@ + src
}

pub open spec fn msg_template_failed(src: Seq<char>, err: Seq<char>) -> Seq<char> {
    "目录模板生成失败: "@ + src + " ("@ + err + ")"@
}

pub open spec fn msg_destination_failed(src: Seq<char>, err: Seq<char>) -> Seq<char> {
    "目标路径构建失败: "@ + src + " ("@ + err + ")"@
}

pub open spec fn err_bad_file_name(src: Seq<char>) -> Seq<char> {
    "无法解析文件名: "@ + src
}

pub open spec fn err_too_many_names(src: Seq<char>) -> Seq<char> {
    "同名文件过多，无法生成唯一文件名: "@ + src
}

pub open spec fn msg_dry_run(src: Seq<char>, dst: Seq<char>) -> Seq<char> {
    "预演：从 "@ + src + " 到 "@ + dst
}

pub open spec fn msg_day_dir_failed(dir: Seq<char>) -> Seq<char> {
    "无法创建日期目录: "@ + dir
}

pub open spec fn msg_copied(src: Seq<char>, dst: Seq<char>) -> Seq<char> {
    "复制：从 "@ + src + " 到 "@ + dst
}

pub open spec fn msg_copy_failed(src: Seq<char>, dst: Seq<char>) -> Seq<char> {
    "复制失败：从 "@ + src + " 到 "@ + dst
}

pub open spec fn msg_moved(src: Seq<char>, dst: Seq<char>) -> Seq<char> {
    "移动：从 "@ + src + " 到 "@ + dst
}

pub open spec fn msg_move_copy_failed(src: Seq<char>, dst: Seq<char>) -> Seq<char> {
    "跨设备移动失败，复制也失败：从 "@ + src + " 到 "@ + dst
}

pub open spec fn msg_remove_failed(src: Seq<char>) -> Seq<char> {
    "删除源文件失败: "@ + src
}

pub open spec fn msg_done(s: RunSummary) -> Seq<char> {
    "完成 扫描="@ + decimal(s.scanned as nat) + " 处理="@ + decimal(s.handled as nat) + " 跳过="@
        + decimal(s.skipped as nat) + " 失败="@ + decimal(s.failed as nat)
}

// ---------------------------------------------------------------------
// The transition function
// ---------------------------------------------------------------------

/// Whether a file is being worked on in this stage.
pub open spec fn in_progress(stage: StageView) -> bool {
    match stage {
        StageView::AwaitContents { .. } => true,
        StageView::AwaitTime { .. } => true,
        StageView::AwaitExists { .. } => true,
        StageView::AwaitDayDir { .. } => true,
        StageView::AwaitCopy { .. } => true,
        StageView::AwaitRename { .. } => true,
        StageView::AwaitMoveCopy { .. } => true,
        StageView::AwaitRemove { .. } => true,
        _ => false,
    }
}

/// Whether the stage waits for a change to the file system.
pub open spec fn writes(stage: StageView) -> bool {
    match stage {
        StageView::AwaitTarget => true,
        StageView::AwaitDayDir { .. } => true,
        StageView::AwaitCopy { .. } => true,
        StageView::AwaitRename { .. } => true,
        StageView::AwaitMoveCopy { .. } => true,
        StageView::AwaitRemove { .. } => true,
        _ => false,
    }
}

/// Whether the stage belongs to moving a file.
pub open spec fn moves(stage: StageView) -> bool {
    match stage {
        StageView::AwaitRename { .. } => true,
        StageView::AwaitMoveCopy { .. } => true,
        StageView::AwaitRemove { .. } => true,
        _ => false,
    }
}

/// The destination chosen for the current file, once it is chosen.
pub open spec fn stage_dst(stage: StageView) -> Option<Seq<char>> {
    match stage {
        StageView::AwaitDayDir { dst, .. } => Some(dst),
        StageView::AwaitCopy { dst, .. } => Some(dst),
        StageView::AwaitRename { dst, .. } => Some(dst),
        StageView::AwaitMoveCopy { dst, .. } => Some(dst),
        StageView::AwaitRemove { dst, .. } => Some(dst),
        _ => None,
    }
}

impl RunState {
    /// Every file found is counted once: as handled, skipped, failed, or as
    /// the file in progress. A dry run never waits for a change to the file
    /// system, a copying run never for a move, and a candidate is the
    /// path its index gives.
    pub open spec fn wf(self) -> bool {
        &&& self.summary.handled + self.summary.skipped + self.summary.failed + (if in_progress(
            self.stage,
        ) {
            1int
        } else {
            0int
        }) == self.summary.scanned
        &&& self.opts.dry_run ==> !writes(self.stage)
        &&& !self.opts.mv ==> !moves(self.stage)
        &&& self.stage matches StageView::AwaitExists { day_dir, name, index, candidate, .. } ==> {
            &&& index <= max_suffix()
            &&& candidate == candidate_path(self.style, day_dir, name, index)
        }
    }

    pub open spec fn with(self, summary: RunSummary, stage: StageView) -> RunState {
        RunState { opts: self.opts, style: self.style, summary, stage }
    }
}

/// The action a stage waits on.
pub open spec fn pending_action(s: RunState) -> ActionView {
    match s.stage {
        StageView::AwaitPaths => ActionView::InspectPaths,
        StageView::AwaitTarget => ActionView::CreateTarget(s.opts.target),
        StageView::AwaitFile => ActionView::NextFile,
        StageView::AwaitContents { .. } => ActionView::ReadFile,
        StageView::AwaitTime { kind, .. } => ActionView::FileTime(kind),
        StageView::AwaitExists { candidate, .. } => ActionView::CheckExists(candidate),
        StageView::AwaitDayDir { day_dir, .. } => ActionView::CreateDir(day_dir),
        StageView::AwaitCopy { dst, .. } => ActionView::Copy(dst),
        StageView::AwaitRename { dst, .. } => ActionView::Rename(dst),
        StageView::AwaitMoveCopy { dst, .. } => ActionView::Copy(dst),
        StageView::AwaitRemove { .. } => ActionView::RemoveSource,
        StageView::Finished { error } => ActionView::Finish(
            match error {
                Some(e) => Err(e),
                None => Ok(s.summary),
            },
        ),
    }
}

/// An event that does not answer the pending action changes nothing; the
/// action is asked for again.
pub open spec fn stay(s: RunState) -> StepView {
    StepView { state: s, log: None, action: pending_action(s) }
}

pub open spec fn go(s: RunState, stage: StageView, action: ActionView) -> StepView {
    StepView { state: s.with(s.summary, stage), log: None, action }
}

pub open spec fn finish_with_error(s: RunState, e: Seq<char>) -> StepView {
    StepView {
        state: s.with(s.summary, StageView::Finished { error: Some(e) }),
        log: None,
        action: ActionView::Finish(Err(e)),
    }
}

pub open spec fn ask_next_file(s: RunState, summary: RunSummary, log: Option<(LogLevel, Seq<char>)>) -> StepView {
    StepView { state: s.with(summary, StageView::AwaitFile), log, action: ActionView::NextFile }
}

pub open spec fn count_failed(s: RunSummary) -> RunSummary {
    RunSummary { failed: (s.failed + 1) as usize, ..s }
}

pub open spec fn count_handled(s: RunSummary) -> RunSummary {
    RunSummary { handled: (s.handled + 1) as usize, ..s }
}

/// The current file failed; the message says why.
pub open spec fn fail_file(s: RunState, level: LogLevel, msg: Seq<char>) -> StepView {
    ask_next_file(s, count_failed(s.summary), Some((level, msg)))
}

/// The current file was handled.
pub open spec fn handle_file(s: RunState, level: LogLevel, msg: Seq<char>) -> StepView {
    ask_next_file(s, count_handled(s.summary), Some((level, msg)))
}

/// The first question asked about a media file.
pub open spec fn first_probe(s: RunState, summary: RunSummary, file: SourceFileView) -> StepView {
    match s.opts.time_source {
        TimeSource::Created => StepView {
            state: s.with(summary, StageView::AwaitTime { file, kind: FileTimeKind::Created }),
            log: None,
            action: ActionView::FileTime(FileTimeKind::Created),
        },
        TimeSource::Modified => StepView {
            state: s.with(summary, StageView::AwaitTime { file, kind: FileTimeKind::Modified }),
            log: None,
            action: ActionView::FileTime(FileTimeKind::Modified),
        },
        _ => StepView {
            state: s.with(summary, StageView::AwaitContents { file }),
            log: None,
            action: ActionView::ReadFile,
        },
    }
}

/// Once the date is known (or known to be missing): the dated directory
/// and the first candidate, or the failure of the file.
pub open spec fn settle_date(s: RunState, file: SourceFileView, date: Option<MediaDateTime>) -> StepView {
    match date {
        None => fail_file(s, LogLevel::Warn, msg_no_date(file.display)),
        Some(d) => match spec_render_date_template(s.style, s.opts.target, s.opts.template, d) {
            Err(e) => fail_file(s, LogLevel::Warn, msg_template_failed(file.display, e)),
            Ok(day_dir) => match file.name {
                None => fail_file(
                    s,
                    LogLevel::Warn,
                    msg_destination_failed(file.display, err_bad_file_name(file.display)),
                ),
                Some(name) => {
                    let c = candidate_path(s.style, day_dir, name, 0);
                    go(
                        s,
                        StageView::AwaitExists { file, day_dir, name, index: 0, candidate: c },
                        ActionView::CheckExists(c),
                    )
                },
            },
        },
    }
}

/// One step of the machine: the state after the event, the log entry and
/// the next action.
pub open spec fn spec_step(s: RunState, e: EventView) -> StepView {
    match s.stage {
        StageView::AwaitPaths => match e {
            EventView::Paths { source_exists, source_is_dir, target_exists } => if !source_exists {
                finish_with_error(s, err_no_source(s.opts.source))
            } else if !source_is_dir {
                finish_with_error(s, err_source_not_dir(s.opts.source))
            } else if !target_exists && !s.opts.dry_run {
                go(s, StageView::AwaitTarget, ActionView::CreateTarget(s.opts.target))
            } else {
                ask_next_file(s, s.summary, None)
            },
            _ => stay(s),
        },
        StageView::AwaitTarget => match e {
            EventView::Completed(ok) => if ok {
                ask_next_file(s, s.summary, None)
            } else {
                finish_with_error(s, err_target_not_created(s.opts.target))
            },
            _ => stay(s),
        },
        StageView::AwaitFile => match e {
            EventView::File(None) => StepView {
                state: s.with(s.summary, StageView::Finished { error: None }),
                log: Some((LogLevel::Info, msg_done(s.summary))),
                action: ActionView::Finish(Ok(s.summary)),
            },
            EventView::File(Some(file)) => {
                let counted = RunSummary { scanned: (s.summary.scanned + 1) as usize, ..s.summary };
                if !spec_is_media_file(file.lossy_name) {
                    ask_next_file(
                        s,
                        RunSummary { skipped: (counted.skipped + 1) as usize, ..counted },
                        None,
                    )
                } else {
                    first_probe(s, counted, file)
                }
            },
            _ => stay(s),
        },
        StageView::AwaitContents { file } => match e {
            EventView::Contents(c) => {
                let m = match c {
                    Some(bytes) => spec_metadata_date(file.lossy_name, bytes),
                    None => None,
                };
                if s.opts.time_source == TimeSource::Auto && m is None {
                    go(
                        s,
                        StageView::AwaitTime { file, kind: FileTimeKind::Created },
                        ActionView::FileTime(FileTimeKind::Created),
                    )
                } else {
                    settle_date(s, file, spec_detect_date(s.opts.time_source, m, None, None))
                }
            },
            _ => stay(s),
        },
        StageView::AwaitTime { file, kind } => match e {
            EventView::Time(t) => match kind {
                FileTimeKind::Created => if s.opts.time_source == TimeSource::Auto && t is None {
                    go(
                        s,
                        StageView::AwaitTime { file, kind: FileTimeKind::Modified },
                        ActionView::FileTime(FileTimeKind::Modified),
                    )
                } else {
                    settle_date(s, file, spec_detect_date(s.opts.time_source, None, t, None))
                },
                FileTimeKind::Modified => settle_date(
                    s,
                    file,
                    spec_detect_date(s.opts.time_source, None, None, t),
                ),
            },
            _ => stay(s),
        },
        StageView::AwaitExists { file, day_dir, name, index, candidate } => match e {
            EventView::Exists(true) => if index >= max_suffix() {
                fail_file(
                    s,
                    LogLevel::Warn,
                    msg_destination_failed(file.display, err_too_many_names(file.display)),
                )
            } else {
                let c = candidate_path(s.style, day_dir, name, index + 1);
                go(
                    s,
                    StageView::AwaitExists { file, day_dir, name, index: index + 1, candidate: c },
                    ActionView::CheckExists(c),
                )
            },
            EventView::Exists(false) => if s.opts.dry_run {
                handle_file(s, LogLevel::DryRun, msg_dry_run(file.display, candidate))
            } else {
                go(
                    s,
                    StageView::AwaitDayDir { file, day_dir, dst: candidate },
                    ActionView::CreateDir(day_dir),
                )
            },
            _ => stay(s),
        },
        StageView::AwaitDayDir { file, day_dir, dst } => match e {
            EventView::Completed(ok) => if !ok {
                fail_file(s, LogLevel::Error, msg_day_dir_failed(day_dir))
            } else if s.opts.mv {
                go(s, StageView::AwaitRename { file, dst }, ActionView::Rename(dst))
            } else {
                go(s, StageView::AwaitCopy { file, dst }, ActionView::Copy(dst))
            },
            _ => stay(s),
        },
        StageView::AwaitCopy { file, dst } => match e {
            EventView::Completed(ok) => if ok {
                handle_file(s, LogLevel::Success, msg_copied(file.display, dst))
            } else {
                fail_file(s, LogLevel::Error, msg_copy_failed(file.display, dst))
            },
            _ => stay(s),
        },
        StageView::AwaitRename { file, dst } => match e {
            EventView::Completed(ok) => if ok {
                handle_file(s, LogLevel::Success, msg_moved(file.display, dst))
            } else {
                go(s, StageView::AwaitMoveCopy { file, dst }, ActionView::Copy(dst))
            },
            _ => stay(s),
        },
        StageView::AwaitMoveCopy { file, dst } => match e {
            EventView::Completed(ok) => if ok {
                go(s, StageView::AwaitRemove { file, dst }, ActionView::RemoveSource)
            } else {
                fail_file(s, LogLevel::Error, msg_move_copy_failed(file.display, dst))
            },
            _ => stay(s),
        },
        StageView::AwaitRemove { file, dst } => match e {
            EventView::Completed(ok) => if ok {
                handle_file(s, LogLevel::Success, msg_moved(file.display, dst))
            } else {
                fail_file(s, LogLevel::Error, msg_remove_failed(file.display))
            },
            _ => stay(s),
        },
        StageView::Finished { .. } => stay(s),
    }
}


// ---------------------------------------------------------------------
// The machine
// ---------------------------------------------------------------------

impl Stage {
    spec fn view(&self) -> StageView {
        match self {
            Stage::AwaitPaths => StageView::AwaitPaths,
            Stage::AwaitTarget => StageView::AwaitTarget,
            Stage::AwaitFile => StageView::AwaitFile,
            Stage::AwaitContents { file } => StageView::AwaitContents { file: file@ },
            Stage::AwaitTime { file, kind } => StageView::AwaitTime { file: file@, kind: *kind },
            Stage::AwaitExists { file, day_dir, name, index, candidate } => StageView::AwaitExists {
                file: file@,
                day_dir: day_dir@,
                name: name@,
                index: *index as nat,
                candidate: candidate@,
            },
            Stage::AwaitDayDir { file, day_dir, dst } => StageView::AwaitDayDir {
                file: file@,
                day_dir: day_dir@,
                dst: dst@,
            },
            Stage::AwaitCopy { file, dst } => StageView::AwaitCopy { file: file@, dst: dst@ },
            Stage::AwaitRename { file, dst } => StageView::AwaitRename { file: file@, dst: dst@ },
            Stage::AwaitMoveCopy { file, dst } => StageView::AwaitMoveCopy { file: file@, dst: dst@ },
            Stage::AwaitRemove { file, dst } => StageView::AwaitRemove { file: file@, dst: dst@ },
            Stage::Finished { error } => StageView::Finished {
                error: match error {
                    Some(e) => Some(e@),
                    None => None,
                },
            },
        }
    }
}

/// A run in progress: the options, the counts so far and the stage.
pub struct FileProcessor {
    opts: RunOptions,
    style: PathStyle,
    summary: RunSummary,
    stage: Stage,
}

impl View for FileProcessor {
    type V = RunState;

    closed spec fn view(&self) -> RunState {
        RunState { opts: options_view(self.opts), style: self.style, summary: self.summary, stage: self.stage.view() }
    }
}

fn text2(a: &str, x: &[char]) -> (r: Vec<char>)
    ensures
        r@ == a@ + x@,
{
    let mut r: Vec<char> = Vec::new();
    push_str(&mut r, a);
    push_all(&mut r, x);
    r
}

fn text4(a: &str, x: &[char], b: &str, y: &[char]) -> (r: Vec<char>)
    ensures
        r@ == a@ + x@ + b@ + y@,
{
    let mut r: Vec<char> = Vec::new();
    push_str(&mut r, a);
    push_all(&mut r, x);
    push_str(&mut r, b);
    push_all(&mut r, y);
    r
}

fn text5(a: &str, x: &[char], b: &str, y: &[char], c: &str) -> (r: Vec<char>)
    ensures
        r@ == a@ + x@ + b@ + y@ + c@,
{
    let mut r = text4(a, x, b, y);
    push_str(&mut r, c);
    r
}

fn done_message(s: RunSummary) -> (r: Vec<char>)
    ensures
        r@ == msg_done(s),
{
    let mut r: Vec<char> = Vec::new();
    push_str(&mut r, "完成 扫描=");
    push_decimal(&mut r, s.scanned as u64);
    push_str(&mut r, " 处理=");
    push_decimal(&mut r, s.handled as u64);
    push_str(&mut r, " 跳过=");
    push_decimal(&mut r, s.skipped as u64);
    push_str(&mut r, " 失败=");
    push_decimal(&mut r, s.failed as u64);
    r
}

fn log_line(level: LogLevel, msg: &[char], now: ClockTime) -> (r: Option<LogEntry>)
    requires
        now.is_valid(),
    ensures
        log_view(r) == Some((level, msg@)),
        stamped(r, now),
{
    Some(LogEntry::new(level, string_of(msg), now))
}

/// The state made of these options, counts and stage.
pub open spec fn state_of(opts: RunOptions, style: PathStyle, summary: RunSummary, stage: StageView) -> RunState {
    RunState { opts: options_view(opts), style, summary, stage }
}

/// Whether an executed step gives the state, log entry and action that
/// `v` describes, the entry stamped with the clock reading `now`.
pub open spec fn realizes(r: (FileProcessor, RunStep), v: StepView, now: ClockTime) -> bool {
    &&& r.0@ == v.state
    &&& log_view(r.1.log) == v.log
    &&& r.1.action@ == v.action
    &&& stamped(r.1.log, now)
}

/// Whether a step's log entry is stamped with the clock reading `now`.
pub open spec fn stamped(log: Option<LogEntry>, now: ClockTime) -> bool {
    log matches Some(l) ==> l.timestamp@ == now.text()
}

impl FileProcessor {
    #[verifier::type_invariant]
    spec fn consistent(self) -> bool {
        self@.wf()
    }

    /// A run with these options, before anything is known; its first
    /// action asks for the state of the source and target paths.
    pub fn start(opts: RunOptions, style: PathStyle) -> (r: (FileProcessor, RunAction))
        ensures
            r.0@ == (RunState {
                opts: options_view(opts),
                style,
                summary: RunSummary { scanned: 0, handled: 0, skipped: 0, failed: 0 },
                stage: StageView::AwaitPaths,
            }),
            r.1@ == ActionView::InspectPaths,
    {
        (
            FileProcessor {
                opts,
                style,
                summary: RunSummary { scanned: 0, handled: 0, skipped: 0, failed: 0 },
                stage: Stage::AwaitPaths,
            },
            RunAction::InspectPaths,
        )
    }

    /// The counts so far.
    pub fn summary(&self) -> (r: RunSummary)
        ensures
            r == self@.summary,
    {
        self.summary
    }

    fn next_file(opts: RunOptions, style: PathStyle, summary: RunSummary, log: Option<LogEntry>) -> (r: (FileProcessor, RunStep))
        requires
            summary.handled + summary.skipped + summary.failed == summary.scanned,
        ensures
            r.0@ == (RunState { opts: options_view(opts), style, summary, stage: StageView::AwaitFile }),
            r.1.action@ == ActionView::NextFile,
            r.1.log == log,
    {
        (FileProcessor { opts, style, summary, stage: Stage::AwaitFile }, RunStep { log, action: RunAction::NextFile })
    }

    fn fail(opts: RunOptions, style: PathStyle, summary: RunSummary, level: LogLevel, msg: &[char], now: ClockTime) -> (r: (
        FileProcessor,
        RunStep,
    ))
        requires
            summary.handled + summary.skipped + summary.failed + 1 == summary.scanned,
            now.is_valid(),
        ensures
            r.0@ == (RunState { opts: options_view(opts), style, summary: count_failed(summary), stage: StageView::AwaitFile }),
            r.1.action@ == ActionView::NextFile,
            log_view(r.1.log) == Some((level, msg@)),
            stamped(r.1.log, now),
    {
        let log = log_line(level, msg, now);
        let summary = RunSummary { failed: summary.failed + 1, ..summary };
        Self::next_file(opts, style, summary, log)
    }

    fn handled(opts: RunOptions, style: PathStyle, summary: RunSummary, level: LogLevel, msg: &[char], now: ClockTime) -> (r: (
        FileProcessor,
        RunStep,
    ))
        requires
            summary.handled + summary.skipped + summary.failed + 1 == summary.scanned,
            now.is_valid(),
        ensures
            r.0@ == (RunState { opts: options_view(opts), style, summary: count_handled(summary), stage: StageView::AwaitFile }),
            r.1.action@ == ActionView::NextFile,
            log_view(r.1.log) == Some((level, msg@)),
            stamped(r.1.log, now),
    {
        let log = log_line(level, msg, now);
        let summary = RunSummary { handled: summary.handled + 1, ..summary };
        Self::next_file(opts, style, summary, log)
    }

    fn finish_error(opts: RunOptions, style: PathStyle, summary: RunSummary, e: Vec<char>) -> (r: (FileProcessor, RunStep))
        requires
            summary.handled + summary.skipped + summary.failed == summary.scanned,
        ensures
            r.0@ == (RunState { opts: options_view(opts), style, summary, stage: StageView::Finished { error: Some(e@) } }),
            r.1.action@ == ActionView::Finish(Err(e@)),
            r.1.log is None,
    {
        let msg = string_of(&e);
        (
            FileProcessor { opts, style, summary, stage: Stage::Finished { error: Some(e) } },
            RunStep { log: None, action: RunAction::Finish(Err(msg)) },
        )
    }

    fn stay(opts: RunOptions, style: PathStyle, summary: RunSummary, stage: Stage) -> (r: (FileProcessor, RunStep))
        requires
            (RunState { opts: options_view(opts), style, summary, stage: stage.view() }).wf(),
        ensures
            r.0@ == (RunState { opts: options_view(opts), style, summary, stage: stage.view() }),
            r.1.action@ == pending_action(r.0@),
            r.1.log is None,
    {
        let action = match &stage {
            Stage::AwaitPaths => RunAction::InspectPaths,
            Stage::AwaitTarget => RunAction::CreateTarget(opts.target.clone()),
            Stage::AwaitFile => RunAction::NextFile,
            Stage::AwaitContents { .. } => RunAction::ReadFile,
            Stage::AwaitTime { kind, .. } => RunAction::FileTime(*kind),
            Stage::AwaitExists { candidate, .. } => RunAction::CheckExists(string_of(candidate)),
            Stage::AwaitDayDir { day_dir, .. } => RunAction::CreateDir(string_of(day_dir)),
            Stage::AwaitCopy { dst, .. } => RunAction::Copy(string_of(dst)),
            Stage::AwaitRename { dst, .. } => RunAction::Rename(string_of(dst)),
            Stage::AwaitMoveCopy { dst, .. } => RunAction::Copy(string_of(dst)),
            Stage::AwaitRemove { .. } => RunAction::RemoveSource,
            Stage::Finished { error } => RunAction::Finish(
                match error {
                    Some(e) => Err(string_of(e)),
                    None => Ok(summary),
                },
            ),
        };
        (FileProcessor { opts, style, summary, stage }, RunStep { log: None, action })
    }

    /// The steps once the date of the current file is settled.
    fn settle(
        opts: RunOptions,
        style: PathStyle,
        summary: RunSummary,
        file: SourceFile,
        date: Option<MediaDateTime>,
        now: ClockTime,
    ) -> (r: (FileProcessor, RunStep))
        requires
            summary.handled + summary.skipped + summary.failed + 1 == summary.scanned,
            now.is_valid(),
        ensures
            ({
                let v = settle_date(
                    RunState { opts: options_view(opts), style, summary, stage: StageView::AwaitFile },
                    file@,
                    date,
                );
                &&& r.0@ == v.state
                &&& log_view(r.1.log) == v.log
                &&& r.1.action@ == v.action
                &&& stamped(r.1.log, now)
            }),
    {
        let display = chars_of(file.display.as_str());
        match date {
            None => {
                let m = text2("无法确定日期: ", &display);
                Self::fail(opts, style, summary, LogLevel::Warn, &m, now)
            },
            Some(d) => match render_date_template(style, opts.target.as_str(), opts.template.as_str(), d) {
                Err(e) => {
                    let ec = chars_of(e.as_str());
                    let m = text5("目录模板生成失败: ", &display, " (", &ec, ")");
                    Self::fail(opts, style, summary, LogLevel::Warn, &m, now)
                },
                Ok(dir) => {
                    let name = match &file.name {
                        Some(n) => Some(chars_of(n.as_str())),
                        None => None,
                    };
                    match name {
                        None => {
                            let ec = text2("无法解析文件名: ", &display);
                            let m = text5("目标路径构建失败: ", &display, " (", &ec, ")");
                            Self::fail(opts, style, summary, LogLevel::Warn, &m, now)
                        },
                        Some(name) => {
                            let day_dir = chars_of(dir.as_str());
                            let c = destination_candidate(style, &day_dir, &name, 0);
                            let action = RunAction::CheckExists(string_of(&c));
                            (
                                FileProcessor {
                                    opts,
                                    style,
                                    summary,
                                    stage: Stage::AwaitExists { file, day_dir, name, index: 0, candidate: c },
                                },
                                RunStep { log: None, action },
                            )
                        },
                    }
                },
            },
        }
    }

    /// Takes the answer to the last action and gives the next one.
    pub fn step(self, event: RunEvent, now: ClockTime) -> (r: (FileProcessor, RunStep))
        requires
            event@ matches EventView::File(Some(_)) ==> self@.summary.scanned < usize::MAX,
            now.is_valid(),
        ensures
            realizes(r, spec_step(self@, event@), now),
    {
        proof {
            use_type_invariant(&self);
        }
        let FileProcessor { opts, style, summary, stage } = self;
        match stage {
            Stage::AwaitPaths => Self::on_paths(opts, style, summary, event, now),
            Stage::AwaitTarget => Self::on_target(opts, style, summary, event, now),
            Stage::AwaitFile => Self::on_file(opts, style, summary, event, now),
            Stage::AwaitContents { file } => Self::on_contents(opts, style, summary, file, event, now),
            Stage::AwaitTime { file, kind } => Self::on_time(opts, style, summary, file, kind, event, now),
            Stage::AwaitExists { file, day_dir, name, index, candidate } => Self::on_exists(
                opts,
                style,
                summary,
                file,
                day_dir,
                name,
                index,
                candidate,
                event,
                now,
            ),
            Stage::AwaitDayDir { file, day_dir, dst } => Self::on_day_dir(opts, style, summary, file, day_dir, dst, event, now),
            Stage::AwaitCopy { file, dst } => Self::on_copy(opts, style, summary, file, dst, event, now),
            Stage::AwaitRename { file, dst } => Self::on_rename(opts, style, summary, file, dst, event, now),
            Stage::AwaitMoveCopy { file, dst } => Self::on_move_copy(opts, style, summary, file, dst, event, now),
            Stage::AwaitRemove { file, dst } => Self::on_remove(opts, style, summary, file, dst, event, now),
            Stage::Finished { error } => Self::stay(opts, style, summary, Stage::Finished { error }),
        }
    }

    fn on_paths(opts: RunOptions, style: PathStyle, summary: RunSummary, event: RunEvent, now: ClockTime) -> (r: (FileProcessor, RunStep))
        requires
            now.is_valid(),
            state_of(opts, style, summary, StageView::AwaitPaths).wf(),
        ensures
            realizes(r, spec_step(state_of(opts, style, summary, StageView::AwaitPaths), event@), now),
    {
        match event {
            RunEvent::Paths { source_exists, source_is_dir, target_exists } => {
                if !source_exists {
                    let src = chars_of(opts.source.as_str());
                    let e = text2("源目录不存在: ", &src);
                    Self::finish_error(opts, style, summary, e)
                } else if !source_is_dir {
                    let src = chars_of(opts.source.as_str());
                    let e = text2("源路径不是目录: ", &src);
                    Self::finish_error(opts, style, summary, e)
                } else if !target_exists && !opts.dry_run {
                    let t = opts.target.clone();
                    (
                        FileProcessor { opts, style, summary, stage: Stage::AwaitTarget },
                        RunStep { log: None, action: RunAction::CreateTarget(t) },
                    )
                } else {
                    Self::next_file(opts, style, summary, None)
                }
            },
            _ => Self::stay(opts, style, summary, Stage::AwaitPaths),
        }
    }

    fn on_target(opts: RunOptions, style: PathStyle, summary: RunSummary, event: RunEvent, now: ClockTime) -> (r: (FileProcessor, RunStep))
        requires
            now.is_valid(),
            state_of(opts, style, summary, StageView::AwaitTarget).wf(),
        ensures
            realizes(r, spec_step(state_of(opts, style, summary, StageView::AwaitTarget), event@), now),
    {
        match event {
            RunEvent::Completed(ok) => {
                if ok {
                    Self::next_file(opts, style, summary, None)
                } else {
                    let t = chars_of(opts.target.as_str());
                    let e = text2("无法创建目标目录: ", &t);
                    Self::finish_error(opts, style, summary, e)
                }
            },
            _ => Self::stay(opts, style, summary, Stage::AwaitTarget),
        }
    }

    fn on_file(opts: RunOptions, style: PathStyle, summary: RunSummary, event: RunEvent, now: ClockTime) -> (r: (FileProcessor, RunStep))
        requires
            now.is_valid(),
            state_of(opts, style, summary, StageView::AwaitFile).wf(),
            event@ matches EventView::File(Some(_)) ==> summary.scanned < usize::MAX,
        ensures
            realizes(r, spec_step(state_of(opts, style, summary, StageView::AwaitFile), event@), now),
    {
        match event {
            RunEvent::File(None) => {
                let m = done_message(summary);
                let log = log_line(LogLevel::Info, &m, now);
                (
                    FileProcessor { opts, style, summary, stage: Stage::Finished { error: None } },
                    RunStep { log, action: RunAction::Finish(Ok(summary)) },
                )
            },
            RunEvent::File(Some(file)) => {
                let counted = RunSummary { scanned: summary.scanned + 1, ..summary };
                if !is_media_file(file.lossy_name.as_str()) {
                    let skipped = RunSummary { skipped: counted.skipped + 1, ..counted };
                    Self::next_file(opts, style, skipped, None)
                } else {
                    match opts.time_source {
                        TimeSource::Created => (
                            FileProcessor {
                                opts,
                                style,
                                summary: counted,
                                stage: Stage::AwaitTime { file, kind: FileTimeKind::Created },
                            },
                            RunStep { log: None, action: RunAction::FileTime(FileTimeKind::Created) },
                        ),
                        TimeSource::Modified => (
                            FileProcessor {
                                opts,
                                style,
                                summary: counted,
                                stage: Stage::AwaitTime { file, kind: FileTimeKind::Modified },
                            },
                            RunStep { log: None, action: RunAction::FileTime(FileTimeKind::Modified) },
                        ),
                        _ => (
                            FileProcessor { opts, style, summary: counted, stage: Stage::AwaitContents { file } },
                            RunStep { log: None, action: RunAction::ReadFile },
                        ),
                    }
                }
            },
            _ => Self::stay(opts, style, summary, Stage::AwaitFile),
        }
    }

    fn on_contents(opts: RunOptions, style: PathStyle, summary: RunSummary, file: SourceFile, event: RunEvent, now: ClockTime) -> (r: (
        FileProcessor,
        RunStep,
    ))
        requires
            now.is_valid(),
            state_of(opts, style, summary, StageView::AwaitContents { file: file@ }).wf(),
        ensures
            realizes(r, spec_step(state_of(opts, style, summary, StageView::AwaitContents { file: file@ }), event@), now),
    {
        match event {
            RunEvent::Contents(c) => {
                let m = match c {
                    Some(bytes) => detect_media_metadata_date(file.lossy_name.as_str(), &bytes),
                    None => None,
                };
                if opts.time_source == TimeSource::Auto && m.is_none() {
                    (
                        FileProcessor { opts, style, summary, stage: Stage::AwaitTime { file, kind: FileTimeKind::Created } },
                        RunStep { log: None, action: RunAction::FileTime(FileTimeKind::Created) },
                    )
                } else {
                    let d = detect_date_by_source(opts.time_source, m, None, None);
                    Self::settle(opts, style, summary, file, d, now)
                }
            },
            _ => Self::stay(opts, style, summary, Stage::AwaitContents { file }),
        }
    }

    fn on_time(opts: RunOptions, style: PathStyle, summary: RunSummary, file: SourceFile, kind: FileTimeKind, event: RunEvent, now: ClockTime) -> (r: (
        FileProcessor,
        RunStep,
    ))
        requires
            now.is_valid(),
            state_of(opts, style, summary, StageView::AwaitTime { file: file@, kind }).wf(),
        ensures
            realizes(r, spec_step(state_of(opts, style, summary, StageView::AwaitTime { file: file@, kind }), event@), now),
    {
        match event {
            RunEvent::Time(t) => match kind {
                FileTimeKind::Created => {
                    if opts.time_source == TimeSource::Auto && t.is_none() {
                        (
                            FileProcessor {
                                opts,
                                style,
                                summary,
                                stage: Stage::AwaitTime { file, kind: FileTimeKind::Modified },
                            },
                            RunStep { log: None, action: RunAction::FileTime(FileTimeKind::Modified) },
                        )
                    } else {
                        let d = detect_date_by_source(opts.time_source, None, t, None);
                        Self::settle(opts, style, summary, file, d, now)
                    }
                },
                FileTimeKind::Modified => {
                    let d = detect_date_by_source(opts.time_source, None, None, t);
                    Self::settle(opts, style, summary, file, d, now)
                },
            },
            _ => Self::stay(opts, style, summary, Stage::AwaitTime { file, kind }),
        }
    }

    fn on_exists(
        opts: RunOptions,
        style: PathStyle,
        summary: RunSummary,
        file: SourceFile,
        day_dir: Vec<char>,
        name: Vec<char>,
        index: u64,
        candidate: Vec<char>,
        event: RunEvent,
        now: ClockTime,
    ) -> (r: (FileProcessor, RunStep))
        requires
            now.is_valid(),
            state_of(
                opts,
                style,
                summary,
                StageView::AwaitExists {
                    file: file@,
                    day_dir: day_dir@,
                    name: name@,
                    index: index as nat,
                    candidate: candidate@,
                },
            ).wf(),
        ensures
            realizes(
                r,
                spec_step(
                    state_of(
                        opts,
                        style,
                        summary,
                        StageView::AwaitExists {
                            file: file@,
                            day_dir: day_dir@,
                            name: name@,
                            index: index as nat,
                            candidate: candidate@,
                        },
                    ),
                    event@,
                ),
                now,
            ),
    {
        match event {
            RunEvent::Exists(true) => {
                if index >= 9999 {
                    let display = chars_of(file.display.as_str());
                    let ec = text2("同名文件过多，无法生成唯一文件名: ", &display);
                    let m = text5("目标路径构建失败: ", &display, " (", &ec, ")");
                    Self::fail(opts, style, summary, LogLevel::Warn, &m, now)
                } else {
                    let c = destination_candidate(style, &day_dir, &name, index + 1);
                    let action = RunAction::CheckExists(string_of(&c));
                    (
                        FileProcessor {
                            opts,
                            style,
                            summary,
                            stage: Stage::AwaitExists { file, day_dir, name, index: index + 1, candidate: c },
                        },
                        RunStep { log: None, action },
                    )
                }
            },
            RunEvent::Exists(false) => {
                if opts.dry_run {
                    let display = chars_of(file.display.as_str());
                    let m = text4("预演：从 ", &display, " 到 ", &candidate);
                    Self::handled(opts, style, summary, LogLevel::DryRun, &m, now)
                } else {
                    let action = RunAction::CreateDir(string_of(&day_dir));
                    (
                        FileProcessor { opts, style, summary, stage: Stage::AwaitDayDir { file, day_dir, dst: candidate } },
                        RunStep { log: None, action },
                    )
                }
            },
            _ => Self::stay(opts, style, summary, Stage::AwaitExists { file, day_dir, name, index, candidate }),
        }
    }

    fn on_day_dir(
        opts: RunOptions,
        style: PathStyle,
        summary: RunSummary,
        file: SourceFile,
        day_dir: Vec<char>,
        dst: Vec<char>,
        event: RunEvent,
        now: ClockTime,
    ) -> (r: (FileProcessor, RunStep))
        requires
            now.is_valid(),
            state_of(opts, style, summary, StageView::AwaitDayDir { file: file@, day_dir: day_dir@, dst: dst@ }).wf(),
        ensures
            realizes(
                r,
                spec_step(
                    state_of(opts, style, summary, StageView::AwaitDayDir { file: file@, day_dir: day_dir@, dst: dst@ }),
                    event@,
                ),
                now,
            ),
    {
        match event {
            RunEvent::Completed(ok) => {
                if !ok {
                    let m = text2("无法创建日期目录: ", &day_dir);
                    Self::fail(opts, style, summary, LogLevel::Error, &m, now)
                } else if opts.mv {
                    let action = RunAction::Rename(string_of(&dst));
                    (FileProcessor { opts, style, summary, stage: Stage::AwaitRename { file, dst } }, RunStep { log: None, action })
                } else {
                    let action = RunAction::Copy(string_of(&dst));
                    (FileProcessor { opts, style, summary, stage: Stage::AwaitCopy { file, dst } }, RunStep { log: None, action })
                }
            },
            _ => Self::stay(opts, style, summary, Stage::AwaitDayDir { file, day_dir, dst }),
        }
    }

    fn on_copy(opts: RunOptions, style: PathStyle, summary: RunSummary, file: SourceFile, dst: Vec<char>, event: RunEvent, now: ClockTime) -> (r: (
        FileProcessor,
        RunStep,
    ))
        requires
            now.is_valid(),
            state_of(opts, style, summary, StageView::AwaitCopy { file: file@, dst: dst@ }).wf(),
        ensures
            realizes(r, spec_step(state_of(opts, style, summary, StageView::AwaitCopy { file: file@, dst: dst@ }), event@), now),
    {
        match event {
            RunEvent::Completed(ok) => {
                let display = chars_of(file.display.as_str());
                if ok {
                    let m = text4("复制：从 ", &display, " 到 ", &dst);
                    Self::handled(opts, style, summary, LogLevel::Success, &m, now)
                } else {
                    let m = text4("复制失败：从 ", &display, " 到 ", &dst);
                    Self::fail(opts, style, summary, LogLevel::Error, &m, now)
                }
            },
            _ => Self::stay(opts, style, summary, Stage::AwaitCopy { file, dst }),
        }
    }

    fn on_rename(opts: RunOptions, style: PathStyle, summary: RunSummary, file: SourceFile, dst: Vec<char>, event: RunEvent, now: ClockTime) -> (r: (
        FileProcessor,
        RunStep,
    ))
        requires
            now.is_valid(),
            state_of(opts, style, summary, StageView::AwaitRename { file: file@, dst: dst@ }).wf(),
        ensures
            realizes(r, spec_step(state_of(opts, style, summary, StageView::AwaitRename { file: file@, dst: dst@ }), event@), now),
    {
        match event {
            RunEvent::Completed(ok) => {
                if ok {
                    let display = chars_of(file.display.as_str());
                    let m = text4("移动：从 ", &display, " 到 ", &dst);
                    Self::handled(opts, style, summary, LogLevel::Success, &m, now)
                } else {
                    let action = RunAction::Copy(string_of(&dst));
                    (FileProcessor { opts, style, summary, stage: Stage::AwaitMoveCopy { file, dst } }, RunStep { log: None, action })
                }
            },
            _ => Self::stay(opts, style, summary, Stage::AwaitRename { file, dst }),
        }
    }

    fn on_move_copy(opts: RunOptions, style: PathStyle, summary: RunSummary, file: SourceFile, dst: Vec<char>, event: RunEvent, now: ClockTime) -> (r: (
        FileProcessor,
        RunStep,
    ))
        requires
            now.is_valid(),
            state_of(opts, style, summary, StageView::AwaitMoveCopy { file: file@, dst: dst@ }).wf(),
        ensures
            realizes(r, spec_step(state_of(opts, style, summary, StageView::AwaitMoveCopy { file: file@, dst: dst@ }), event@), now),
    {
        match event {
            RunEvent::Completed(ok) => {
                if ok {
                    (
                        FileProcessor { opts, style, summary, stage: Stage::AwaitRemove { file, dst } },
                        RunStep { log: None, action: RunAction::RemoveSource },
                    )
                } else {
                    let display = chars_of(file.display.as_str());
                    let m = text4("跨设备移动失败，复制也失败：从 ", &display, " 到 ", &dst);
                    Self::fail(opts, style, summary, LogLevel::Error, &m, now)
                }
            },
            _ => Self::stay(opts, style, summary, Stage::AwaitMoveCopy { file, dst }),
        }
    }

    fn on_remove(opts: RunOptions, style: PathStyle, summary: RunSummary, file: SourceFile, dst: Vec<char>, event: RunEvent, now: ClockTime) -> (r: (
        FileProcessor,
        RunStep,
    ))
        requires
            now.is_valid(),
            state_of(opts, style, summary, StageView::AwaitRemove { file: file@, dst: dst@ }).wf(),
        ensures
            realizes(r, spec_step(state_of(opts, style, summary, StageView::AwaitRemove { file: file@, dst: dst@ }), event@), now),
    {
        match event {
            RunEvent::Completed(ok) => {
                let display = chars_of(file.display.as_str());
                if ok {
                    let m = text4("移动：从 ", &display, " 到 ", &dst);
                    Self::handled(opts, style, summary, LogLevel::Success, &m, now)
                } else {
                    let m = text2("删除源文件失败: ", &display);
                    Self::fail(opts, style, summary, LogLevel::Error, &m, now)
                }
            },
            _ => Self::stay(opts, style, summary, Stage::AwaitRemove { file, dst }),
        }
    }
}

/// A log line as printed: `[time] [TAG] message`.
pub open spec fn log_line_text(entry: LogEntry) -> Seq<char> {
    "["@ + entry.timestamp@ + "] ["@ + entry.level.tag_text() + "] "@ + entry.message@
}

/// The log entry as one printed line.
pub fn format_log_line(entry: &LogEntry) -> (r: String)
    ensures
        r@ == log_line_text(*entry),
{
    let mut v: Vec<char> = Vec::new();
    push_str(&mut v, "[");
    push_str(&mut v, entry.timestamp.as_str());
    push_str(&mut v, "] [");
    push_str(&mut v, entry.tag());
    push_str(&mut v, "] ");
    push_str(&mut v, entry.message.as_str());
    string_of(&v)
}

// ---------------------------------------------------------------------
// Laws of a run
// ---------------------------------------------------------------------

/// A step keeps the options and the bookkeeping: every file found stays
/// counted exactly once, as handled, skipped, failed, or in progress.
pub proof fn lemma_step_keeps_accounts(s: RunState, e: EventView)
    requires
        s.wf(),
        e matches EventView::File(Some(_)) ==> s.summary.scanned < usize::MAX,
    ensures
        spec_step(s, e).state.wf(),
        spec_step(s, e).state.opts == s.opts,
{
}

/// The summary a run finishes with accounts for every file it scanned.
pub proof fn lemma_summary_accounts_for_every_file(s: RunState, e: EventView)
    requires
        s.wf(),
    ensures
        spec_step(s, e).action matches ActionView::Finish(Ok(sum)) ==> sum.scanned == sum.handled
            + sum.skipped + sum.failed,
{
}

/// Whether an action changes the file system.
pub open spec fn changes_files(a: ActionView) -> bool {
    match a {
        ActionView::CreateTarget(_) => true,
        ActionView::CreateDir(_) => true,
        ActionView::Copy(_) => true,
        ActionView::Rename(_) => true,
        ActionView::RemoveSource => true,
        _ => false,
    }
}

/// A dry run never asks for the file system to be changed.
pub proof fn lemma_dry_run_changes_nothing(s: RunState, e: EventView)
    requires
        s.wf(),
        s.opts.dry_run,
    ensures
        !changes_files(spec_step(s, e).action),
{
}

/// A copying run never renames or removes a source file.
pub proof fn lemma_copy_keeps_sources(s: RunState, e: EventView)
    requires
        s.wf(),
        !s.opts.mv,
    ensures
        !(spec_step(s, e).action is Rename),
        !(spec_step(s, e).action is RemoveSource),
{
}

/// A file is only ever copied or renamed to the destination the machine
/// holds, and the machine only takes on a destination that was just
/// reported not to exist: nothing is overwritten.
pub proof fn lemma_destination_was_free(s: RunState, e: EventView)
    requires
        s.wf(),
    ensures
        spec_step(s, e).action matches ActionView::Copy(d) ==> stage_dst(spec_step(s, e).state.stage)
            == Some(d),
        spec_step(s, e).action matches ActionView::Rename(d) ==> stage_dst(spec_step(s, e).state.stage)
            == Some(d),
        stage_dst(spec_step(s, e).state.stage) matches Some(d) ==> {
            ||| stage_dst(s.stage) == Some(d)
            ||| (s.stage matches StageView::AwaitExists { candidate, .. } && candidate == d && e
                == EventView::Exists(false))
        },
{
}

/// The date a file is filed under is the one `spec_detect_date` picks from
/// all three sources, though the machine asks only for the sources it
/// needs: the others cannot change the pick.
pub proof fn lemma_unasked_sources_do_not_matter(
    source: TimeSource,
    metadata: Option<MediaDateTime>,
    created: Option<MediaDateTime>,
    modified: Option<MediaDateTime>,
)
    ensures
        (source == TimeSource::Exif || (source == TimeSource::Auto && metadata is Some))
            ==> spec_detect_date(source, metadata, created, modified) == spec_detect_date(
            source,
            metadata,
            None,
            None,
        ),
        (source == TimeSource::Created || (source == TimeSource::Auto && metadata is None
            && created is Some)) ==> spec_detect_date(source, metadata, created, modified)
            == spec_detect_date(source, None, created, None),
        (source == TimeSource::Modified || (source == TimeSource::Auto && metadata is None
            && created is None)) ==> spec_detect_date(source, metadata, created, modified)
            == spec_detect_date(source, None, None, modified),
{
}

/// The same state in a run that writes.
pub open spec fn as_real_run(s: RunState) -> RunState {
    RunState { opts: OptionsView { dry_run: false, ..s.opts }, ..s }
}

/// A dry run decides as the run that writes would, given the same answers:
/// each step is the same, except where a file's free destination has just
/// been found; there the dry run logs the copy or move it previews, to the
/// very destination the writing run goes on to make its directory for.
/// (The answers need not be the same across two whole runs: a dry run
/// makes no files, so a later file of the same name and date finds the
/// destination still free.)
pub proof fn lemma_dry_run_previews_real_run(s: RunState, e: EventView)
    requires
        s.wf(),
        s.opts.dry_run,
        !(s.stage is AwaitPaths),
    ensures
        e == EventView::Exists(false) ==> (s.stage matches StageView::AwaitExists {
            file,
            day_dir,
            candidate,
            ..
        } ==> {
            &&& spec_step(as_real_run(s), e).action == ActionView::CreateDir(day_dir)
            &&& stage_dst(spec_step(as_real_run(s), e).state.stage) == Some(candidate)
            &&& spec_step(s, e).log == Some((LogLevel::DryRun, msg_dry_run(file.display, candidate)))
        }),
        !(s.stage is AwaitExists && e == EventView::Exists(false)) ==> {
            &&& as_real_run(spec_step(s, e).state) == spec_step(as_real_run(s), e).state
            &&& spec_step(s, e).log == spec_step(as_real_run(s), e).log
            &&& spec_step(s, e).action == spec_step(as_real_run(s), e).action
        },
{
}

/// In the modes that read a file's contents first (auto, the default, and
/// exif), a date found in the contents is the date the file is filed
/// under: no file time is asked for, and the first destination tried lies
/// in the directory that the template gives for that date.
pub proof fn lemma_metadata_date_decides(s: RunState, file: SourceFileView, bytes: Seq<u8>, d: MediaDateTime)
    requires
        s.stage == (StageView::AwaitContents { file }),
        s.opts.time_source == TimeSource::Auto || s.opts.time_source == TimeSource::Exif,
        spec_metadata_date(file.lossy_name, bytes) == Some(d),
    ensures
        !(spec_step(s, EventView::Contents(Some(bytes))).action is FileTime),
        forall|day_dir: Seq<char>, name: Seq<char>|
            spec_render_date_template(s.style, s.opts.target, s.opts.template, d) == Ok::<
                Seq<char>,
                Seq<char>,
            >(day_dir) && #[trigger] file.name == Some(name) ==> {
                &&& spec_step(s, EventView::Contents(Some(bytes))).action == ActionView::CheckExists(
                    candidate_path(s.style, day_dir, name, 0),
                )
                &&& spec_step(s, EventView::Contents(Some(bytes))).state.stage == (StageView::AwaitExists {
                    file,
                    day_dir,
                    name,
                    index: 0,
                    candidate: candidate_path(s.style, day_dir, name, 0),
                })
            },
{
}

/// In auto mode a file without a date in its contents falls back on its
/// creation time, and a file without that on its modification time: the
/// first of them that is known is the date the file is filed under.
pub proof fn lemma_auto_falls_back_on_file_times(s: RunState, file: SourceFileView, e: EventView, d: MediaDateTime)
    requires
        s.opts.time_source == TimeSource::Auto,
    ensures
        s.stage == (StageView::AwaitContents { file }) && (e == EventView::Contents(None) || (
        e matches EventView::Contents(Some(bytes)) && spec_metadata_date(file.lossy_name, bytes) is None))
            ==> spec_step(s, e).action == ActionView::FileTime(FileTimeKind::Created),
        s.stage == (StageView::AwaitTime { file, kind: FileTimeKind::Created }) && e == EventView::Time(None)
            ==> spec_step(s, e).action == ActionView::FileTime(FileTimeKind::Modified),
        forall|day_dir: Seq<char>, name: Seq<char>|
            (s.stage == (StageView::AwaitTime { file, kind: FileTimeKind::Created }) || s.stage == (
            StageView::AwaitTime { file, kind: FileTimeKind::Modified })) && e == EventView::Time(Some(d))
                && spec_render_date_template(s.style, s.opts.target, s.opts.template, d) == Ok::<
                Seq<char>,
                Seq<char>,
            >(day_dir) && #[trigger] file.name == Some(name) ==> spec_step(s, e).action
                == ActionView::CheckExists(candidate_path(s.style, day_dir, name, 0)),
{
}

/// A step's log entry tells how the file it ends was counted: a success or
/// a previewed copy counts the file as handled, a warning or an error as
/// failed, and each leaves the other counts as they were; the closing
/// report changes no count.
pub proof fn lemma_log_level_matches_the_count(s: RunState, e: EventView)
    requires
        s.wf(),
    ensures
        spec_step(s, e).log matches Some((level, _)) && (level == LogLevel::Success || level
            == LogLevel::DryRun) ==> {
            &&& spec_step(s, e).state.summary.handled == s.summary.handled + 1
            &&& spec_step(s, e).state.summary.failed == s.summary.failed
            &&& spec_step(s, e).state.summary.skipped == s.summary.skipped
            &&& spec_step(s, e).state.summary.scanned == s.summary.scanned
        },
        spec_step(s, e).log matches Some((level, _)) && (level == LogLevel::Warn || level
            == LogLevel::Error) ==> {
            &&& spec_step(s, e).state.summary.failed == s.summary.failed + 1
            &&& spec_step(s, e).state.summary.handled == s.summary.handled
            &&& spec_step(s, e).state.summary.skipped == s.summary.skipped
            &&& spec_step(s, e).state.summary.scanned == s.summary.scanned
        },
        spec_step(s, e).log matches Some((level, _)) && level == LogLevel::Info ==> spec_step(
            s,
            e,
        ).state.summary == s.summary,
{
}

/// A file that is copied, or moved (by a rename, or by a copy and a
/// removal of the source), is counted as handled, never as failed, and the
/// next file is asked for.
pub proof fn lemma_completed_transfer_is_handled(s: RunState, file: SourceFileView, dst: Seq<char>)
    requires
        s.wf(),
        s.stage == (StageView::AwaitCopy { file, dst }) || s.stage == (StageView::AwaitRename {
            file,
            dst,
        }) || s.stage == (StageView::AwaitRemove { file, dst }),
    ensures
        spec_step(s, EventView::Completed(true)).state.summary == (RunSummary {
            handled: (s.summary.handled + 1) as usize,
            ..s.summary
        }),
        s.summary.handled + 1 <= usize::MAX,
        spec_step(s, EventView::Completed(true)).action == ActionView::NextFile,
        s.stage is AwaitCopy ==> spec_step(s, EventView::Completed(true)).log == Some(
            (LogLevel::Success, msg_copied(file.display, dst)),
        ),
        !(s.stage is AwaitCopy) ==> spec_step(s, EventView::Completed(true)).log == Some(
            (LogLevel::Success, msg_moved(file.display, dst)),
        ),
{
}

} // verus!
