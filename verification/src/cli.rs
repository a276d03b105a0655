//! The command line: its arguments, whether they ask for the graphical
//! interface or a run, and the closing report of a run.
use vstd::prelude::*;

use crate::text::{chars_of, decimal, push_decimal, push_str, string_of};
use crate::types::{RunOptions, RunSummary, TimeSource};

verus! {

/// The command-line arguments.
#[derive(Clone, Debug)]
pub struct Args {
    /// The source directory, such as a memory card.
    pub source: Option<String>,
    /// The target directory under which the dated directories are made.
    pub target: Option<String>,
    /// Move the files instead of copying them.
    pub mv: bool,
    /// Only print the plan, write nothing.
    pub dry_run: bool,
    pub time_source: TimeSource,
    /// The directory template, `{YYYY}-{MM}-{DD}` unless given.
    pub template: String,
    /// Start the graphical interface.
    pub gui: bool,
}

impl Args {
    /// The options of a command-line run; `None` when the graphical
    /// interface is asked for or a path is missing, which starts it.
    pub fn run_options(&self) -> (r: Option<RunOptions>)
        ensures
            r is None <==> (self.gui || self.source is None || self.target is None),
            r matches Some(o) ==> {
                &&& self.source matches Some(s) && o.source@ == s@
                &&& self.target matches Some(t) && o.target@ == t@
                &&& o.mv == self.mv
                &&& o.dry_run == self.dry_run
                &&& o.time_source == self.time_source
                &&& o.template@ == self.template@
            },
    {
        if self.gui {
            return None;
        }
        match (&self.source, &self.target) {
            (Some(source), Some(target)) => Some(
                RunOptions {
                    source: string_of(&chars_of(source.as_str())),
                    target: string_of(&chars_of(target.as_str())),
                    mv: self.mv,
                    dry_run: self.dry_run,
                    time_source: self.time_source,
                    template: string_of(&chars_of(self.template.as_str())),
                },
            ),
            _ => None,
        }
    }
}

/// The closing report printed after a command-line run.
pub open spec fn completion_text(s: RunSummary) -> Seq<char> {
    "\n完成: 扫描 "@ + decimal(s.scanned as nat) + " 个文件，处理 "@ + decimal(s.handled as nat)
        + " 个媒体文件，跳过 "@ + decimal(s.skipped as nat) + " 个非媒体文件，失败 "@ + decimal(
        s.failed as nat,
    ) + " 个文件。"@
}

/// The closing report of a command-line run.
pub fn completion_report(s: RunSummary) -> (r: String)
    ensures
        r@ == completion_text(s),
{
    let mut v: Vec<char> = Vec::new();
    push_str(&mut v, "\n完成: 扫描 ");
    push_decimal(&mut v, s.scanned as u64);
    push_str(&mut v, " 个文件，处理 ");
    push_decimal(&mut v, s.handled as u64);
    push_str(&mut v, " 个媒体文件，跳过 ");
    push_decimal(&mut v, s.skipped as u64);
    push_str(&mut v, " 个非媒体文件，失败 ");
    push_decimal(&mut v, s.failed as u64);
    push_str(&mut v, " 个文件。");
    string_of(&v)
}

} // verus!
