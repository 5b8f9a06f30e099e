//! The summary of a facade repair run: its status and the lines that
//! report it.

use vstd::prelude::*;
use vstd::string::StringExecFns;

use crate::fix_model::{count_created, count_written, fix_mode_label, FacadeFixPlan, FacadeFixSummary, FixMode};
use crate::text::{cat2, cat3, decimal, push_str, usize_text};

verus! {

/// The outcome of a repair run.
#[derive(Clone, Copy, Debug, PartialEq, Eq, Structural, Hash)]
pub enum FacadeFixStatus {
    /// Nothing needed a change.
    Unchanged,
    /// Every change was written.
    Fixed,
    /// Changes were found and not all written.
    DryRun,
}

/// The label of a repair status.
pub open spec fn fix_status_label(s: FacadeFixStatus) -> Seq<char> {
    match s {
        FacadeFixStatus::Unchanged => "ok"@,
        FacadeFixStatus::Fixed => "fixed"@,
        FacadeFixStatus::DryRun => "dry-run"@,
    }
}

impl FacadeFixStatus {
    /// The label of the status.
    pub fn as_str(self) -> (label: &'static str)
        ensures
            label@ == fix_status_label(self),
    {
        match self {
            FacadeFixStatus::Unchanged => "ok",
            FacadeFixStatus::Fixed => "fixed",
            FacadeFixStatus::DryRun => "dry-run",
        }
    }
}

/// The status of a run: unchanged without changes, fixed where every
/// planned change was written, else a dry run.
pub open spec fn run_status(plan: FacadeFixPlan, summary: FacadeFixSummary) -> FacadeFixStatus {
    if summary.files_changed == 0 {
        FacadeFixStatus::Unchanged
    } else if count_written(summary.changes@) == plan.changes@.len() {
        FacadeFixStatus::Fixed
    } else {
        FacadeFixStatus::DryRun
    }
}

/// The status of a repair run.
pub fn summary_status(plan: &FacadeFixPlan, summary: &FacadeFixSummary) -> (s: FacadeFixStatus)
    ensures
        s == run_status(*plan, *summary),
{
    if !summary.has_changes() {
        return FacadeFixStatus::Unchanged;
    }
    if summary.files_written() == plan.files_changed() {
        return FacadeFixStatus::Fixed;
    }
    FacadeFixStatus::DryRun
}

/// The line of one file of a run.
pub open spec fn change_line(path: Seq<char>, wrote: bool, created: bool) -> Seq<char> {
    "- "@ + (if wrote { "wrote"@ } else { "would write"@ }) + ": "@ + path + if created { " (created)"@ } else { seq![] }
}

/// The lines of the changed files, in order.
pub open spec fn change_lines(changes: Seq<crate::fix_model::FacadeFixChange>) -> Seq<Seq<char>>
    decreases changes.len(),
{
    if changes.len() == 0 {
        seq![]
    } else {
        change_lines(changes.drop_last()).push(change_line(changes.last().path@, changes.last().wrote, changes.last().created))
    }
}

/// The text report of a repair run, line by line.
pub open spec fn summary_text(mode: FixMode, plan: FacadeFixPlan, summary: FacadeFixSummary) -> Seq<Seq<char>> {
    let head = seq![
        "RustUse facade fix - root: "@ + plan.root@,
        "mode: "@ + fix_mode_label(mode),
        "status: "@ + fix_status_label(run_status(plan, summary)),
        "files inspected: "@ + decimal(summary.files_inspected as nat),
        "files changed: "@ + decimal(plan.changes@.len()),
        "files written: "@ + decimal(count_written(summary.changes@)),
        "files created: "@ + decimal(count_created(plan.changes@)),
        "files unchanged: "@ + decimal(summary.files_unchanged as nat),
    ];
    if plan.changes@.len() == 0 {
        head
    } else {
        head + seq![seq![], "changed files:"@] + change_lines(summary.changes@)
    }
}

/// The lines that report a repair run in text.
pub fn summary_lines(mode: FixMode, plan: &FacadeFixPlan, summary: &FacadeFixSummary) -> (lines: Vec<String>)
    ensures
        crate::text::views(lines@) == summary_text(mode, *plan, *summary),
{
    let mut lines: Vec<String> = Vec::new();
    lines.push(cat2("RustUse facade fix - root: ", plan.root.as_str()));
    lines.push(cat2("mode: ", mode.as_str()));
    let status = summary_status(plan, summary);
    lines.push(cat2("status: ", status.as_str()));
    lines.push(cat2("files inspected: ", usize_text(summary.files_inspected).as_str()));
    lines.push(cat2("files changed: ", usize_text(plan.files_changed()).as_str()));
    lines.push(cat2("files written: ", usize_text(summary.files_written()).as_str()));
    lines.push(cat2("files created: ", usize_text(plan.files_created()).as_str()));
    lines.push(cat2("files unchanged: ", usize_text(summary.files_unchanged).as_str()));
    let ghost head = crate::text::views(lines@);
    assert(head =~= summary_text(mode, *plan, *summary).take(8));
    if plan.is_empty() {
        assert(head =~= summary_text(mode, *plan, *summary));
        return lines;
    }
    lines.push(String::new());
    lines.push(String::from_str("changed files:"));
    let ghost mid = crate::text::views(lines@);
    let mut i: usize = 0;
    while i < summary.changes.len()
        invariant
            i <= summary.changes.len(),
            crate::text::views(lines@) == mid + change_lines(summary.changes@.take(i as int)),
        decreases summary.changes.len() - i,
    {
        let change = &summary.changes[i];
        let mut line = String::from_str("- ");
        push_str(&mut line, if change.wrote { "wrote" } else { "would write" });
        push_str(&mut line, ": ");
        push_str(&mut line, change.path.as_str());
        if change.created {
            push_str(&mut line, " (created)");
        }
        proof {
            reveal_strlit("- ");
            assert(summary.changes@.take(i + 1).drop_last() =~= summary.changes@.take(i as int));
            assert(line@ =~= change_line(change.path@, change.wrote, change.created));
        }
        let ghost before = crate::text::views(lines@);
        lines.push(line);
        assert(crate::text::views(lines@) =~= before.push(change_line(change.path@, change.wrote, change.created)));
        i = i + 1;
    }
    assert(summary.changes@.take(i as int) =~= summary.changes@);
    assert(crate::text::views(lines@) =~= summary_text(mode, *plan, *summary));
    lines
}

} // verus!
