//! What a facade repair targets, how it runs, what it plans and what it did.

use vstd::prelude::*;

use crate::codes::{code_id, FacadeIssueCode};
use vstd::string::{StrSliceExecFns, StringExecFns};

use crate::text::{cat3, str_eq, trim, trimmed};

verus! {

/// A group of facade manifest repairs.
#[derive(Clone, Copy, Debug, PartialEq, Eq, Structural, Hash)]
pub enum FacadeFixGroup {
    FacadeWiring,
    WorkspaceShape,
    WorkspaceDependencies,
    PackageMetadata,
}

/// The canonical id of a repair group.
pub open spec fn fix_group_id(g: FacadeFixGroup) -> Seq<char> {
    match g {
        FacadeFixGroup::FacadeWiring => "facade-wiring"@,
        FacadeFixGroup::WorkspaceShape => "workspace-shape"@,
        FacadeFixGroup::WorkspaceDependencies => "workspace-dependencies"@,
        FacadeFixGroup::PackageMetadata => "package-metadata"@,
    }
}

impl FacadeFixGroup {
    /// The canonical id of the group.
    pub fn as_str(self) -> (id: &'static str)
        ensures
            id@ == fix_group_id(self),
    {
        match self {
            FacadeFixGroup::FacadeWiring => "facade-wiring",
            FacadeFixGroup::WorkspaceShape => "workspace-shape",
            FacadeFixGroup::WorkspaceDependencies => "workspace-dependencies",
            FacadeFixGroup::PackageMetadata => "package-metadata",
        }
    }

    /// The group whose id is exactly `id`.
    pub fn from_id(id: &str) -> (group: Option<FacadeFixGroup>)
        ensures
            match group {
                Some(g) => fix_group_id(g) == id@,
                None => forall|g: FacadeFixGroup| #[trigger] fix_group_id(g) != id@,
            },
    {
        if str_eq(id, "facade-wiring") {
            Some(FacadeFixGroup::FacadeWiring)
        } else if str_eq(id, "workspace-shape") {
            Some(FacadeFixGroup::WorkspaceShape)
        } else if str_eq(id, "workspace-dependencies") {
            Some(FacadeFixGroup::WorkspaceDependencies)
        } else if str_eq(id, "package-metadata") {
            Some(FacadeFixGroup::PackageMetadata)
        } else {
            None
        }
    }
}

/// An issue code or a repair group chosen for repair.
#[derive(Clone, Copy, Debug, PartialEq, Eq, Structural, Hash)]
pub enum FacadeFixTarget {
    Issue(FacadeIssueCode),
    Group(FacadeFixGroup),
}

/// The message for an empty target.
pub open spec fn empty_target_message() -> Seq<char> {
    "facade fix code cannot be empty"@
}

/// The message for the target `all`.
pub open spec fn all_target_message() -> Seq<char> {
    "use `--all` instead of `--code all`"@
}

/// The message for a target that names no code and no group.
pub open spec fn unknown_target_message(v: Seq<char>) -> Seq<char> {
    "unknown facade fix issue code or group `"@ + v + "`"@
}

/// What reading `value` as a repair target gives: the trimmed text is read
/// as a group id first, then as an issue code; an empty text, `all` and an
/// unknown name are refused with their messages.
pub open spec fn fix_target_outcome_ok(value: Seq<char>, r: Result<FacadeFixTarget, String>) -> bool {
    let v = trim(value);
    match r {
        Ok(FacadeFixTarget::Group(g)) => v.len() > 0 && v != "all"@ && fix_group_id(g) == v,
        Ok(FacadeFixTarget::Issue(c)) => v.len() > 0 && v != "all"@
            && (forall|g: FacadeFixGroup| #[trigger] fix_group_id(g) != v) && code_id(c) == v,
        Err(e) => if v.len() == 0 {
            e@ == empty_target_message()
        } else if v == "all"@ {
            e@ == all_target_message()
        } else {
            &&& forall|g: FacadeFixGroup| #[trigger] fix_group_id(g) != v
            &&& forall|c: FacadeIssueCode| #[trigger] code_id(c) != v
            &&& e@ == unknown_target_message(v)
        },
    }
}

/// Reads a repair target from user input.
pub fn parse_fix_target(value: &str) -> (r: Result<FacadeFixTarget, String>)
    ensures
        fix_target_outcome_ok(value@, r),
{
    let v = trimmed(value);
    if v.as_str().unicode_len() == 0 {
        let e = String::from_str("facade fix code cannot be empty");
        return Err(e);
    }
    if str_eq(v.as_str(), "all") {
        let e = String::from_str("use `--all` instead of `--code all`");
        return Err(e);
    }
    match FacadeFixGroup::from_id(v.as_str()) {
        Some(g) => Ok(FacadeFixTarget::Group(g)),
        None => match FacadeIssueCode::from_id(v.as_str()) {
            Some(c) => Ok(FacadeFixTarget::Issue(c)),
            None => Err(cat3("unknown facade fix issue code or group `", v.as_str(), "`")),
        },
    }
}

proof fn lemma_trim_of_name(s: Seq<char>)
    requires
        s.len() > 0,
        !crate::text::is_space(s[0]),
        !crate::text::is_space(s.last()),
    ensures
        trim(s) == s,
{
    assert(crate::text::trim_start(s) == s);
}

proof fn lemma_group_ids(g: FacadeFixGroup)
    ensures
        fix_group_id(g).len() == 13 ==> fix_group_id(g)[0] == 'f',
        fix_group_id(g).len() == 15 ==> fix_group_id(g)[0] == 'w',
        fix_group_id(g).len() == 16 ==> fix_group_id(g)[0] == 'p',
        fix_group_id(g).len() == 22 ==> fix_group_id(g)[0] == 'w',
        fix_group_id(g).len() == 13 || fix_group_id(g).len() == 15 || fix_group_id(g).len() == 16
            || fix_group_id(g).len() == 22,
        forall|h: FacadeFixGroup| fix_group_id(g) == #[trigger] fix_group_id(h) ==> g == h,
        trim(fix_group_id(g)) == fix_group_id(g),
{
    reveal_strlit("facade-wiring");
    reveal_strlit("workspace-shape");
    reveal_strlit("workspace-dependencies");
    reveal_strlit("package-metadata");
    lemma_trim_of_name(fix_group_id(g));
}

/// Reading the name of a repair group gives that group, and reading the
/// name of an issue code gives that code: every name reads back as what it
/// names.
pub proof fn lemma_fix_target_round_trip(
    g: FacadeFixGroup,
    c: FacadeIssueCode,
    rg: Result<FacadeFixTarget, String>,
    rc: Result<FacadeFixTarget, String>,
)
    requires
        fix_target_outcome_ok(fix_group_id(g), rg),
        fix_target_outcome_ok(code_id(c), rc),
    ensures
        rg == Ok::<FacadeFixTarget, String>(FacadeFixTarget::Group(g)),
        rc == Ok::<FacadeFixTarget, String>(FacadeFixTarget::Issue(c)),
{
    reveal_strlit("all");
    lemma_group_ids(g);
    crate::codes::lemma_code_id_shape(c);
    crate::codes::lemma_code_ids_kebab_case(c);
    let id = code_id(c);
    assert(!crate::text::is_space(id[0]) && !crate::text::is_space(id.last())) by {
        assert(crate::codes::kebab_char(id[0]));
        assert(crate::codes::kebab_char(id[id.len() - 1]));
    }
    lemma_trim_of_name(id);
    assert forall|h: FacadeFixGroup| #[trigger] fix_group_id(h) != id by {
        lemma_group_ids(h);
    }
    match rc {
        Ok(FacadeFixTarget::Issue(d)) => {
            crate::codes::lemma_code_ids_unique(c, d);
        },
        _ => {},
    }
}

impl std::str::FromStr for FacadeFixGroup {
    type Err = ();

    fn from_str(value: &str) -> Result<FacadeFixGroup, ()> {
        match FacadeFixGroup::from_id(value) {
            Some(g) => Ok(g),
            None => Err(()),
        }
    }
}

impl std::str::FromStr for FacadeFixTarget {
    type Err = String;

    fn from_str(value: &str) -> Result<FacadeFixTarget, String> {
        parse_fix_target(value)
    }
}

/// Whether a repair plan is previewed or written.
#[derive(Clone, Copy, Debug, PartialEq, Eq, Structural, Hash)]
pub enum FixMode {
    /// Compute and report the changes without writing files.
    DryRun,
    /// Write the changes to the repository.
    Write,
}

/// The label of a mode.
pub open spec fn fix_mode_label(m: FixMode) -> Seq<char> {
    match m {
        FixMode::DryRun => "dry-run"@,
        FixMode::Write => "write"@,
    }
}

impl Default for FixMode {
    fn default() -> (mode: FixMode)
        ensures
            mode == FixMode::DryRun,
    {
        FixMode::DryRun
    }
}

impl FixMode {
    /// The label of the mode.
    pub fn as_str(self) -> (label: &'static str)
        ensures
            label@ == fix_mode_label(self),
    {
        match self {
            FixMode::DryRun => "dry-run",
            FixMode::Write => "write",
        }
    }

    /// Whether the mode writes files.
    pub fn writes_files(self) -> (r: bool)
        ensures
            r == (self == FixMode::Write),
    {
        matches!(self, FixMode::Write)
    }
}

/// What one facade repair run targets and how it runs.
#[derive(Clone, Debug)]
pub struct FacadeFixOptions {
    /// The issue codes or groups to repair; empty means every supported
    /// repair.
    pub targets: Vec<FacadeFixTarget>,
    pub mode: FixMode,
}

impl Default for FacadeFixOptions {
    fn default() -> (options: FacadeFixOptions)
        ensures
            options.targets@.len() == 0,
            options.mode == FixMode::DryRun,
    {
        FacadeFixOptions { targets: Vec::new(), mode: FixMode::DryRun }
    }
}

impl FacadeFixOptions {
    /// Options with no target, in the given mode.
    pub fn new(mode: FixMode) -> (options: FacadeFixOptions)
        ensures
            options.targets@.len() == 0,
            options.mode == mode,
    {
        FacadeFixOptions { targets: Vec::new(), mode }
    }

    /// The options with `target` added, unless it is already there.
    pub fn with_target(self, target: FacadeFixTarget) -> (options: FacadeFixOptions)
        ensures
            options.mode == self.mode,
            options.targets@ == if self.targets@.contains(target) {
                self.targets@
            } else {
                self.targets@.push(target)
            },
    {
        let mut options = self;
        let mut i: usize = 0;
        let mut present = false;
        while i < options.targets.len()
            invariant
                i <= options.targets.len(),
                options.targets@ == self.targets@,
                present == exists|k: int| 0 <= k < i && options.targets@[k] == target,
            decreases options.targets.len() - i,
        {
            if options.targets[i] == target {
                present = true;
            }
            i = i + 1;
        }
        if !present {
            options.targets.push(target);
        }
        options
    }
}

/// A file replacement that a repair plan proposes.
#[derive(Clone, Debug)]
pub struct PlannedFileChange {
    /// The path relative to the facade root.
    pub path: String,
    /// The whole contents to be written.
    pub contents: String,
    /// Whether the file did not exist when the plan was made.
    pub created: bool,
}

/// How many changes of `s` create a file.
pub open spec fn count_created(s: Seq<PlannedFileChange>) -> nat
    decreases s.len(),
{
    if s.len() == 0 {
        0
    } else {
        count_created(s.drop_last()) + if s.last().created { 1nat } else { 0nat }
    }
}

proof fn lemma_count_created_bound(s: Seq<PlannedFileChange>)
    ensures
        count_created(s) <= s.len(),
    decreases s.len(),
{
    if s.len() > 0 {
        lemma_count_created_bound(s.drop_last());
    }
}

/// A read-only repair plan for one facade repository.
#[derive(Clone, Debug)]
pub struct FacadeFixPlan {
    /// The facade root.
    pub root: String,
    pub files_inspected: usize,
    /// The inspected files that already hold what they should.
    pub files_unchanged: usize,
    /// The files that differ from what they should hold.
    pub changes: Vec<PlannedFileChange>,
}

impl FacadeFixPlan {
    /// The number of files to change.
    pub fn files_changed(&self) -> (n: usize)
        ensures
            n == self.changes@.len(),
    {
        self.changes.len()
    }

    /// The number of files to create.
    pub fn files_created(&self) -> (n: usize)
        ensures
            n == count_created(self.changes@),
    {
        let mut n: usize = 0;
        let mut i: usize = 0;
        while i < self.changes.len()
            invariant
                i <= self.changes.len(),
                n == count_created(self.changes@.take(i as int)),
            decreases self.changes.len() - i,
        {
            proof {
                assert(self.changes@.take(i + 1).drop_last() =~= self.changes@.take(i as int));
                lemma_count_created_bound(self.changes@.take(i as int));
            }
            if self.changes[i].created {
                n = n + 1;
            }
            i = i + 1;
        }
        assert(self.changes@.take(i as int) =~= self.changes@);
        n
    }

    /// Whether the plan changes nothing.
    pub fn is_empty(&self) -> (r: bool)
        ensures
            r == (self.changes@.len() == 0),
    {
        self.changes.len() == 0
    }
}

/// The outcome for one file of a repair run.
#[derive(Clone, Debug)]
pub struct FacadeFixChange {
    /// The path relative to the facade root.
    pub path: String,
    /// Whether the file did not exist when the plan was made.
    pub created: bool,
    /// Whether the file was written; never during a dry run.
    pub wrote: bool,
}

/// How many changes of `s` were written.
pub open spec fn count_written(s: Seq<FacadeFixChange>) -> nat
    decreases s.len(),
{
    if s.len() == 0 {
        0
    } else {
        count_written(s.drop_last()) + if s.last().wrote { 1nat } else { 0nat }
    }
}

proof fn lemma_count_written_bound(s: Seq<FacadeFixChange>)
    ensures
        count_written(s) <= s.len(),
    decreases s.len(),
{
    if s.len() > 0 {
        lemma_count_written_bound(s.drop_last());
    }
}

/// What a repair run previewed or did.
#[derive(Clone, Debug)]
pub struct FacadeFixSummary {
    pub files_inspected: usize,
    pub files_changed: usize,
    pub files_unchanged: usize,
    pub files_created: usize,
    pub changes: Vec<FacadeFixChange>,
}

impl Default for FacadeFixSummary {
    fn default() -> (summary: FacadeFixSummary)
        ensures
            summary.files_inspected == 0,
            summary.files_changed == 0,
            summary.files_unchanged == 0,
            summary.files_created == 0,
            summary.changes@.len() == 0,
    {
        FacadeFixSummary {
            files_inspected: 0,
            files_changed: 0,
            files_unchanged: 0,
            files_created: 0,
            changes: Vec::new(),
        }
    }
}

impl FacadeFixSummary {
    /// Whether any file differs from what it should hold.
    pub fn has_changes(&self) -> (r: bool)
        ensures
            r == (self.files_changed != 0),
    {
        self.files_changed != 0
    }

    /// The number of files written.
    pub fn files_written(&self) -> (n: usize)
        ensures
            n == count_written(self.changes@),
    {
        let mut n: usize = 0;
        let mut i: usize = 0;
        while i < self.changes.len()
            invariant
                i <= self.changes.len(),
                n == count_written(self.changes@.take(i as int)),
            decreases self.changes.len() - i,
        {
            proof {
                assert(self.changes@.take(i + 1).drop_last() =~= self.changes@.take(i as int));
                lemma_count_written_bound(self.changes@.take(i as int));
            }
            if self.changes[i].wrote {
                n = n + 1;
            }
            i = i + 1;
        }
        assert(self.changes@.take(i as int) =~= self.changes@);
        n
    }
}

} // verus!
