//! The values that flow through a run: options, summary, log entries,
//! worker messages, and the calendar date-time that metadata yields.
use vstd::prelude::*;

use crate::text::{push_zero_padded, string_of, zero_padded};

verus! {

/// Where the capture date of a file is taken from.
#[derive(Clone, Copy, Debug, PartialEq, Eq, Structural)]
pub enum TimeSource {
    /// Metadata first, then the creation time, then the modification time.
    Auto,
    /// Metadata only (EXIF, or the QuickTime movie header).
    Exif,
    /// The file system creation time only.
    Created,
    /// The file system modification time only.
    Modified,
}

impl TimeSource {
    /// The text shown for this source in the user interface.
    pub fn label(self) -> (r: &'static str)
        ensures
            r@ == match self {
                TimeSource::Auto => "auto (元数据优先，回退文件时间)"@,
                TimeSource::Exif => "exif (仅元数据)"@,
                TimeSource::Created => "created (仅创建时间)"@,
                TimeSource::Modified => "modified (仅修改时间)"@,
            },
    {
        match self {
            TimeSource::Auto => "auto (元数据优先，回退文件时间)",
            TimeSource::Exif => "exif (仅元数据)",
            TimeSource::Created => "created (仅创建时间)",
            TimeSource::Modified => "modified (仅修改时间)",
        }
    }

    /// Every source, in the order the user interface lists them.
    pub fn all() -> (r: [TimeSource; 4])
        ensures
            r@ == seq![TimeSource::Auto, TimeSource::Exif, TimeSource::Created, TimeSource::Modified],
    {
        let r = [TimeSource::Auto, TimeSource::Exif, TimeSource::Created, TimeSource::Modified];
        assert(r@ =~= seq![TimeSource::Auto, TimeSource::Exif, TimeSource::Created, TimeSource::Modified]);
        r
    }
}

/// A calendar date and wall-clock time without a time zone.
#[derive(Clone, Copy, Debug, PartialEq, Eq, Structural)]
pub struct MediaDateTime {
    pub year: i32,
    pub month: u32,
    pub day: u32,
    pub hour: u32,
    pub minute: u32,
    pub second: u32,
}

/// Whether `year` is a leap year of the proleptic Gregorian calendar.
pub open spec fn is_leap_year(year: int) -> bool {
    (year % 4 == 0 && year % 100 != 0) || year % 400 == 0
}

/// The number of days in `month` of `year`.
pub open spec fn days_in_month(year: int, month: int) -> int {
    if month == 2 {
        if is_leap_year(year) { 29 } else { 28 }
    } else if month == 4 || month == 6 || month == 9 || month == 11 {
        30
    } else {
        31
    }
}

/// The number of days in `year`.
pub open spec fn days_in_year(year: int) -> int {
    if is_leap_year(year) { 366 } else { 365 }
}

/// The number of days from the start of year 0 to the start of `year`
/// (negative for earlier years), counting leap years of the proleptic
/// Gregorian calendar.
pub open spec fn days_before_year(year: int) -> int {
    365 * year + (year + 3) / 4 - (year + 99) / 100 + (year + 399) / 400
}

/// The number of days in `year` before the first day of `month`.
pub open spec fn days_before_month(year: int, month: int) -> int
    decreases month,
{
    if month <= 1 {
        0
    } else {
        days_before_month(year, month - 1) + days_in_month(year, month - 1)
    }
}

impl MediaDateTime {
    /// A real calendar day and a time of day with seconds below 60.
    pub open spec fn is_valid(self) -> bool {
        &&& 1 <= self.month <= 12
        &&& 1 <= self.day <= days_in_month(self.year as int, self.month as int)
        &&& self.hour < 24
        &&& self.minute < 60
        &&& self.second < 60
    }

    /// The day, counted from the start of year 0.
    pub open spec fn day_number(self) -> int {
        days_before_year(self.year as int) + days_before_month(self.year as int, self.month as int)
            + self.day - 1
    }

    /// The second, counted from the start of year 0.
    pub open spec fn instant(self) -> int {
        self.day_number() * 86400 + self.hour * 3600 + self.minute * 60 + self.second
    }
}

proof fn lemma_year_step(y: int)
    ensures
        days_before_year(y + 1) == days_before_year(y) + days_in_year(y),
{
}

proof fn lemma_years_ordered(a: int, b: int)
    requires
        a < b,
    ensures
        days_before_year(a) + days_in_year(a) <= days_before_year(b),
    decreases b - a,
{
    lemma_year_step(a);
    if a + 1 < b {
        lemma_years_ordered(a + 1, b);
    }
}

proof fn lemma_month_table(y: int)
    ensures
        days_before_month(y, 1) == 0,
        days_before_month(y, 2) == 31,
        days_before_month(y, 3) == 31 + days_in_month(y, 2),
        days_before_month(y, 4) == 62 + days_in_month(y, 2),
        days_before_month(y, 5) == 92 + days_in_month(y, 2),
        days_before_month(y, 6) == 123 + days_in_month(y, 2),
        days_before_month(y, 7) == 153 + days_in_month(y, 2),
        days_before_month(y, 8) == 184 + days_in_month(y, 2),
        days_before_month(y, 9) == 215 + days_in_month(y, 2),
        days_before_month(y, 10) == 245 + days_in_month(y, 2),
        days_before_month(y, 11) == 276 + days_in_month(y, 2),
        days_before_month(y, 12) == 306 + days_in_month(y, 2),
        days_before_month(y, 13) == 337 + days_in_month(y, 2),
        days_in_year(y) == 337 + days_in_month(y, 2),
{
    reveal_with_fuel(days_before_month, 13);
}

/// Distinct valid date-times are distinct instants: a valid date-time is
/// determined by the second it falls on.
pub proof fn lemma_instant_determines_date_time(a: MediaDateTime, b: MediaDateTime)
    requires
        a.is_valid(),
        b.is_valid(),
        a.instant() == b.instant(),
    ensures
        a == b,
{
    let ta = a.hour * 3600 + a.minute * 60 + a.second;
    let tb = b.hour * 3600 + b.minute * 60 + b.second;
    assert(a.day_number() == b.day_number() && ta == tb) by {
        if a.day_number() < b.day_number() {
            assert(a.instant() < (a.day_number() + 1) * 86400);
        }
        if b.day_number() < a.day_number() {
            assert(b.instant() < (b.day_number() + 1) * 86400);
        }
    }
    assert(a.hour == b.hour && a.minute == b.minute && a.second == b.second);
    let ya = a.year as int;
    let yb = b.year as int;
    lemma_month_table(ya);
    lemma_month_table(yb);
    if ya < yb {
        lemma_years_ordered(ya, yb);
        assert(false);
    }
    if yb < ya {
        lemma_years_ordered(yb, ya);
        assert(false);
    }
    assert(a.month == b.month);
    assert(a.day == b.day);
}

/// Options of one run.
#[derive(Clone, Debug)]
pub struct RunOptions {
    /// The directory that is scanned, recursively.
    pub source: String,
    /// The directory under which the dated directories are made.
    pub target: String,
    /// Move the files instead of copying them.
    pub mv: bool,
    /// Only report what would be done.
    pub dry_run: bool,
    pub time_source: TimeSource,
    /// The directory template, with `{YYYY}`, `{MM}` and `{DD}`.
    pub template: String,
}

/// The counts at the end of a run.
#[derive(Clone, Copy, Debug, PartialEq, Eq, Structural)]
pub struct RunSummary {
    /// Regular files found under the source.
    pub scanned: usize,
    /// Media files copied, moved, or (in a dry run) planned.
    pub handled: usize,
    /// Files that are not media files.
    pub skipped: usize,
    /// Media files that could not be handled.
    pub failed: usize,
}

/// The severity of a log entry.
#[derive(Clone, Copy, Debug, PartialEq, Eq, Structural)]
pub enum LogLevel {
    Info,
    Success,
    Warn,
    Error,
    DryRun,
}

/// One line of the run log.
#[derive(Clone, Debug)]
pub struct LogEntry {
    /// Local wall-clock time, `HH:MM:SS`.
    pub timestamp: String,
    pub level: LogLevel,
    pub message: String,
}

/// A time of day written `HH:MM:SS`, each field two digits.
pub open spec fn clock_text(hour: nat, minute: nat, second: nat) -> Seq<char> {
    zero_padded(hour, 2) + seq![':'] + zero_padded(minute, 2) + seq![':'] + zero_padded(second, 2)
}

/// A reading of the local wall clock.
#[derive(Clone, Copy, Debug, PartialEq, Eq, Structural)]
pub struct ClockTime {
    pub hour: u32,
    pub minute: u32,
    pub second: u32,
}

impl ClockTime {
    /// A time of day: hour below 24, minute and second below 60.
    pub open spec fn is_valid(self) -> bool {
        self.hour < 24 && self.minute < 60 && self.second < 60
    }

    /// The reading written `HH:MM:SS`.
    pub open spec fn text(self) -> Seq<char> {
        clock_text(self.hour as nat, self.minute as nat, self.second as nat)
    }
}

impl LogLevel {
    /// The short tag printed in front of a log message.
    pub open spec fn tag_text(self) -> Seq<char> {
        match self {
            LogLevel::Info => "INFO"@,
            LogLevel::Success => "OK"@,
            LogLevel::Warn => "WARN"@,
            LogLevel::Error => "ERR"@,
            LogLevel::DryRun => "DRY"@,
        }
    }
}

impl LogEntry {
    /// A log entry stamped with the clock reading `now`.
    pub fn new(level: LogLevel, message: String, now: ClockTime) -> (r: LogEntry)
        requires
            now.is_valid(),
        ensures
            r.level == level,
            r.message@ == message@,
            r.timestamp@ == now.text(),
    {
        let mut t: Vec<char> = Vec::new();
        push_zero_padded(&mut t, now.hour as u64, 2);
        t.push(':');
        push_zero_padded(&mut t, now.minute as u64, 2);
        t.push(':');
        push_zero_padded(&mut t, now.second as u64, 2);
        assert(t@ =~= now.text());
        let timestamp = string_of(&t);
        LogEntry { timestamp, level, message }
    }

    /// The tag of this entry's level.
    pub fn tag(&self) -> (r: &'static str)
        ensures
            r@ == self.level.tag_text(),
    {
        match self.level {
            LogLevel::Info => "INFO",
            LogLevel::Success => "OK",
            LogLevel::Warn => "WARN",
            LogLevel::Error => "ERR",
            LogLevel::DryRun => "DRY",
        }
    }
}

/// What the worker of the graphical interface reports.
pub enum WorkerMessage {
    Log(LogEntry),
    Done(Result<RunSummary, String>),
}

} // verus!
