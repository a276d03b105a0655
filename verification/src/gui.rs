//! The state of the graphical interface and the decisions it takes: when a
//! run may start and with which options, how worker messages change the
//! state, how the log is tallied, and which colours it is drawn in.
use vstd::prelude::*;

use crate::text::{chars_of, decimal, push_decimal, push_str, string_of, trim, trimmed};
use crate::theme::Rgb;
use crate::types::{ClockTime, LogEntry, LogLevel, RunOptions, RunSummary, TimeSource, WorkerMessage};

verus! {

/// What the form holds and what the last run reported.
pub struct FileCopyerApp {
    pub source: String,
    pub target: String,
    pub template: String,
    pub time_source: TimeSource,
    pub mv: bool,
    pub dry_run: bool,
    /// A worker is running.
    pub running: bool,
    pub logs: Vec<LogEntry>,
    /// The one-line report of the last run.
    pub summary: Option<String>,
    /// The theme the style was last adapted to.
    pub last_dark_mode: Option<bool>,
    /// The log panel has been opened.
    pub show_logs: bool,
}

/// The template the form starts with.
pub open spec fn default_template() -> Seq<char> {
    "{YYYY}-{MM}-{DD}"@
}

impl Default for FileCopyerApp {
    fn default() -> (r: FileCopyerApp)
        ensures
            r.source@.len() == 0,
            r.target@.len() == 0,
            r.template@ == default_template(),
            r.time_source == TimeSource::Auto,
            !r.mv,
            !r.dry_run,
            !r.running,
            r.logs@.len() == 0,
            r.summary is None,
            r.last_dark_mode is None,
            !r.show_logs,
    {
        FileCopyerApp {
            source: String::new(),
            target: String::new(),
            template: string_of(&chars_of("{YYYY}-{MM}-{DD}")),
            time_source: TimeSource::Auto,
            mv: false,
            dry_run: false,
            running: false,
            logs: Vec::new(),
            summary: None,
            last_dark_mode: None,
            show_logs: false,
        }
    }
}

/// The message logged when a path field is blank.
pub open spec fn msg_paths_required() -> Seq<char> {
    "源目录和目标目录都不能为空"@
}

/// The report of a finished run.
pub open spec fn report_of_summary(s: RunSummary) -> Seq<char> {
    "完成: 扫描 "@ + decimal(s.scanned as nat) + "，处理 "@ + decimal(s.handled as nat) + "，跳过 "@
        + decimal(s.skipped as nat) + "，失败 "@ + decimal(s.failed as nat) + "。"@
}

/// The report of a run that could not be carried out.
pub open spec fn report_of_error(e: Seq<char>) -> Seq<char> {
    "执行失败: "@ + e
}

/// The report a `Done` message leads to.
pub open spec fn report_of(result: Result<RunSummary, String>) -> Seq<char> {
    match result {
        Ok(s) => report_of_summary(s),
        Err(e) => report_of_error(e@),
    }
}

/// The log entries carried by the messages, in order.
pub open spec fn logged(msgs: Seq<WorkerMessage>) -> Seq<LogEntry>
    decreases msgs.len(),
{
    if msgs.len() == 0 {
        Seq::empty()
    } else {
        let rest = logged(msgs.drop_last());
        match msgs.last() {
            WorkerMessage::Log(e) => rest.push(e),
            WorkerMessage::Done(_) => rest,
        }
    }
}

/// The report of the last `Done` message, if there is one.
pub open spec fn last_report(msgs: Seq<WorkerMessage>) -> Option<Seq<char>>
    decreases msgs.len(),
{
    if msgs.len() == 0 {
        None
    } else {
        match msgs.last() {
            WorkerMessage::Done(result) => Some(report_of(result)),
            WorkerMessage::Log(_) => last_report(msgs.drop_last()),
        }
    }
}

/// The number of entries of the given level.
pub open spec fn count_level(logs: Seq<LogEntry>, level: LogLevel) -> nat
    decreases logs.len(),
{
    if logs.len() == 0 {
        0
    } else {
        count_level(logs.drop_last(), level) + if logs.last().level == level {
            1nat
        } else {
            0nat
        }
    }
}

/// The tally shown above the log.
#[derive(Clone, Copy, Debug, PartialEq, Eq, Structural)]
pub struct LogCounts {
    pub total: usize,
    pub success: usize,
    pub dry_run: usize,
    pub warn: usize,
    pub error: usize,
}

fn summary_report(s: RunSummary) -> (r: String)
    ensures
        r@ == report_of_summary(s),
{
    let mut v: Vec<char> = Vec::new();
    push_str(&mut v, "完成: 扫描 ");
    push_decimal(&mut v, s.scanned as u64);
    push_str(&mut v, "，处理 ");
    push_decimal(&mut v, s.handled as u64);
    push_str(&mut v, "，跳过 ");
    push_decimal(&mut v, s.skipped as u64);
    push_str(&mut v, "，失败 ");
    push_decimal(&mut v, s.failed as u64);
    push_str(&mut v, "。");
    string_of(&v)
}

fn error_report(e: &str) -> (r: String)
    ensures
        r@ == report_of_error(e@),
{
    let mut v: Vec<char> = Vec::new();
    push_str(&mut v, "执行失败: ");
    push_str(&mut v, e);
    string_of(&v)
}

impl FileCopyerApp {
    /// Opens the log and, when both paths are filled in, hands back the
    /// options of the run to start (the paths trimmed) and marks the form
    /// as running with an empty log; when a path is blank it logs, stamped
    /// with the clock reading `now`, that both paths are needed, and
    /// leaves the running flag as it was.
    pub fn start_task(&mut self, now: ClockTime) -> (r: Option<RunOptions>)
        requires
            now.is_valid(),
        ensures
            final(self).show_logs,
            final(self).summary is None,
            final(self).source == old(self).source,
            final(self).target == old(self).target,
            final(self).template == old(self).template,
            final(self).time_source == old(self).time_source,
            final(self).mv == old(self).mv,
            final(self).dry_run == old(self).dry_run,
            final(self).last_dark_mode == old(self).last_dark_mode,
            trim(old(self).source@).len() == 0 || trim(old(self).target@).len() == 0 ==> {
                &&& r is None
                &&& final(self).running == old(self).running
                &&& final(self).logs@.len() == old(self).logs@.len() + 1
                &&& final(self).logs@.take(old(self).logs@.len() as int) == old(self).logs@
                &&& final(self).logs@.last().level == LogLevel::Error
                &&& final(self).logs@.last().message@ == msg_paths_required()
                &&& final(self).logs@.last().timestamp@ == now.text()
            },
            !(trim(old(self).source@).len() == 0 || trim(old(self).target@).len() == 0) ==> {
                &&& r matches Some(o) && {
                    &&& o.source@ == trim(old(self).source@)
                    &&& o.target@ == trim(old(self).target@)
                    &&& o.mv == old(self).mv
                    &&& o.dry_run == old(self).dry_run
                    &&& o.time_source == old(self).time_source
                    &&& o.template@ == old(self).template@
                }
                &&& final(self).running
                &&& final(self).logs@.len() == 0
            },
    {
        self.show_logs = true;
        self.summary = None;
        let source = trimmed(&chars_of(self.source.as_str()));
        let target = trimmed(&chars_of(self.target.as_str()));
        if source.len() == 0 || target.len() == 0 {
            let entry = LogEntry::new(LogLevel::Error, string_of(&chars_of("源目录和目标目录都不能为空")), now);
            let ghost before = self.logs@;
            self.logs.push(entry);
            assert(self.logs@.take(before.len() as int) =~= before);
            return None;
        }
        let options = RunOptions {
            source: string_of(&source),
            target: string_of(&target),
            mv: self.mv,
            dry_run: self.dry_run,
            time_source: self.time_source,
            template: string_of(&chars_of(self.template.as_str())),
        };
        self.running = true;
        self.logs.clear();
        Some(options)
    }

    /// Takes in the messages the worker has sent since the last call, in
    /// order: a log entry is appended to the log; a `Done` message ends
    /// the run and sets the report.
    pub fn poll_worker(&mut self, messages: Vec<WorkerMessage>)
        ensures
            final(self).logs@ == old(self).logs@ + logged(messages@),
            final(self).running == (old(self).running && last_report(messages@) is None),
            last_report(messages@) matches Some(r) ==> (final(self).summary matches Some(t) && t@ == r),
            last_report(messages@) is None ==> final(self).summary == old(self).summary,
            final(self).source == old(self).source,
            final(self).target == old(self).target,
            final(self).template == old(self).template,
            final(self).time_source == old(self).time_source,
            final(self).mv == old(self).mv,
            final(self).dry_run == old(self).dry_run,
            final(self).last_dark_mode == old(self).last_dark_mode,
            final(self).show_logs == old(self).show_logs,
    {
        let ghost all = messages@;
        let ghost start_logs = self.logs@;
        let ghost start_running = self.running;
        let ghost start_summary = self.summary;
        let mut msgs = messages;
        let mut done: usize = 0;
        let total = msgs.len();
        assert(all.take(0) =~= Seq::<WorkerMessage>::empty());
        while msgs.len() > 0
            invariant
                done + msgs@.len() == total,
                total == all.len(),
                msgs@ == all.skip(done as int),
                self.logs@ == start_logs + logged(all.take(done as int)),
                self.running == (start_running && last_report(all.take(done as int)) is None),
                last_report(all.take(done as int)) matches Some(r) ==> (self.summary matches Some(t)
                    && t@ == r),
                last_report(all.take(done as int)) is None ==> self.summary == start_summary,
                self.source == old(self).source,
                self.target == old(self).target,
                self.template == old(self).template,
                self.time_source == old(self).time_source,
                self.mv == old(self).mv,
                self.dry_run == old(self).dry_run,
                self.last_dark_mode == old(self).last_dark_mode,
                self.show_logs == old(self).show_logs,
            decreases msgs@.len(),
        {
            let msg = msgs.remove(0);
            assert(all.take(done + 1).drop_last() =~= all.take(done as int));
            assert(all.take(done + 1).last() == msg);
            match msg {
                WorkerMessage::Log(entry) => {
                    self.logs.push(entry);
                    assert(self.logs@ =~= start_logs + logged(all.take(done + 1)));
                },
                WorkerMessage::Done(result) => {
                    self.running = false;
                    match result {
                        Ok(summary) => {
                            self.summary = Some(summary_report(summary));
                        },
                        Err(err) => {
                            self.summary = Some(error_report(err.as_str()));
                        },
                    }
                },
            }
            done += 1;
            assert(msgs@ =~= all.skip(done as int));
        }
        assert(all.take(done as int) =~= all);
    }

    /// How many entries the log holds in all and at each level shown.
    pub fn log_counts(&self) -> (r: LogCounts)
        ensures
            r.total == self.logs@.len(),
            r.success == count_level(self.logs@, LogLevel::Success),
            r.dry_run == count_level(self.logs@, LogLevel::DryRun),
            r.warn == count_level(self.logs@, LogLevel::Warn),
            r.error == count_level(self.logs@, LogLevel::Error),
    {
        let mut success: usize = 0;
        let mut dry_run: usize = 0;
        let mut warn: usize = 0;
        let mut error: usize = 0;
        let mut i: usize = 0;
        while i < self.logs.len()
            invariant
                i <= self.logs@.len(),
                success == count_level(self.logs@.take(i as int), LogLevel::Success),
                dry_run == count_level(self.logs@.take(i as int), LogLevel::DryRun),
                warn == count_level(self.logs@.take(i as int), LogLevel::Warn),
                error == count_level(self.logs@.take(i as int), LogLevel::Error),
                success <= i && dry_run <= i && warn <= i && error <= i,
            decreases self.logs@.len() - i,
        {
            assert(self.logs@.take(i + 1).drop_last() =~= self.logs@.take(i as int));
            match self.logs[i].level {
                LogLevel::Success => success += 1,
                LogLevel::Warn => warn += 1,
                LogLevel::Error => error += 1,
                LogLevel::DryRun => dry_run += 1,
                LogLevel::Info => {},
            }
            i += 1;
        }
        assert(self.logs@.take(i as int) =~= self.logs@);
        LogCounts { total: self.logs.len(), success, dry_run, warn, error }
    }

    /// Records the theme now in use and tells whether the style must be
    /// adapted to it, that is, whether it differs from the last one.
    pub fn sync_dark_mode(&mut self, dark_mode: bool) -> (changed: bool)
        ensures
            changed == (old(self).last_dark_mode != Some(dark_mode)),
            final(self).last_dark_mode == Some(dark_mode),
            final(self).source == old(self).source,
            final(self).target == old(self).target,
            final(self).template == old(self).template,
            final(self).time_source == old(self).time_source,
            final(self).mv == old(self).mv,
            final(self).dry_run == old(self).dry_run,
            final(self).running == old(self).running,
            final(self).logs == old(self).logs,
            final(self).summary == old(self).summary,
            final(self).show_logs == old(self).show_logs,
    {
        let changed = match self.last_dark_mode {
            Some(d) => d != dark_mode,
            None => true,
        };
        self.last_dark_mode = Some(dark_mode);
        changed
    }
}

/// The accent colour of the title, the start button and the busy label.
pub fn accent_color(dark_mode: bool) -> (c: Rgb)
    ensures
        c == (if dark_mode { Rgb { r: 90, g: 170, b: 255 } } else { Rgb { r: 20, g: 110, b: 210 } }),
{
    if dark_mode {
        Rgb { r: 90, g: 170, b: 255 }
    } else {
        Rgb { r: 20, g: 110, b: 210 }
    }
}

/// The background of the form and log cards.
pub fn card_color(dark_mode: bool) -> (c: Rgb)
    ensures
        c == (if dark_mode { Rgb { r: 30, g: 36, b: 48 } } else { Rgb { r: 244, g: 247, b: 252 } }),
{
    if dark_mode {
        Rgb { r: 30, g: 36, b: 48 }
    } else {
        Rgb { r: 244, g: 247, b: 252 }
    }
}

/// The colour of the tally above the log.
pub fn tally_color(dark_mode: bool) -> (c: Rgb)
    ensures
        c == (if dark_mode { Rgb { r: 210, g: 220, b: 235 } } else { Rgb { r: 60, g: 70, b: 85 } }),
{
    if dark_mode {
        Rgb { r: 210, g: 220, b: 235 }
    } else {
        Rgb { r: 60, g: 70, b: 85 }
    }
}

/// The colour of a log entry's tag, by level and theme.
pub open spec fn spec_tag_color(level: LogLevel, dark_mode: bool) -> Rgb {
    match level {
        LogLevel::Info => if dark_mode { Rgb { r: 110, g: 180, b: 255 } } else { Rgb { r: 30, g: 120, b: 220 } },
        LogLevel::Success => if dark_mode { Rgb { r: 95, g: 220, b: 140 } } else { Rgb { r: 40, g: 150, b: 80 } },
        LogLevel::Warn => if dark_mode { Rgb { r: 255, g: 210, b: 110 } } else { Rgb { r: 190, g: 120, b: 30 } },
        LogLevel::Error => if dark_mode { Rgb { r: 255, g: 125, b: 125 } } else { Rgb { r: 200, g: 45, b: 45 } },
        LogLevel::DryRun => if dark_mode { Rgb { r: 190, g: 170, b: 255 } } else { Rgb { r: 95, g: 70, b: 180 } },
    }
}

/// The colour of a log entry's tag.
pub fn tag_color(level: LogLevel, dark_mode: bool) -> (c: Rgb)
    ensures
        c == spec_tag_color(level, dark_mode),
{
    match level {
        LogLevel::Info => if dark_mode { Rgb { r: 110, g: 180, b: 255 } } else { Rgb { r: 30, g: 120, b: 220 } },
        LogLevel::Success => if dark_mode { Rgb { r: 95, g: 220, b: 140 } } else { Rgb { r: 40, g: 150, b: 80 } },
        LogLevel::Warn => if dark_mode { Rgb { r: 255, g: 210, b: 110 } } else { Rgb { r: 190, g: 120, b: 30 } },
        LogLevel::Error => if dark_mode { Rgb { r: 255, g: 125, b: 125 } } else { Rgb { r: 200, g: 45, b: 45 } },
        LogLevel::DryRun => if dark_mode { Rgb { r: 190, g: 170, b: 255 } } else { Rgb { r: 95, g: 70, b: 180 } },
    }
}

} // verus!
