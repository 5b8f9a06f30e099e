//! Facade issues, their severities, repair kinds, and the overall status of
//! a facade.

use vstd::prelude::*;

use crate::codes::{code_bucket, FacadeIssueBucket, FacadeIssueCode};

verus! {

/// How serious a facade issue is.
#[derive(Clone, Copy, Debug, PartialEq, Eq, Structural, Hash)]
pub enum FacadeIssueSeverity {
    Error,
    Warning,
}

/// The label of a severity.
pub open spec fn severity_label(s: FacadeIssueSeverity) -> Seq<char> {
    match s {
        FacadeIssueSeverity::Error => "error"@,
        FacadeIssueSeverity::Warning => "warning"@,
    }
}

/// The sort rank of a severity: errors first.
pub open spec fn severity_rank(s: FacadeIssueSeverity) -> nat {
    match s {
        FacadeIssueSeverity::Error => 0,
        FacadeIssueSeverity::Warning => 1,
    }
}

impl FacadeIssueSeverity {
    /// The label of the severity.
    pub fn as_str(self) -> (label: &'static str)
        ensures
            label@ == severity_label(self),
    {
        match self {
            FacadeIssueSeverity::Error => "error",
            FacadeIssueSeverity::Warning => "warning",
        }
    }

    /// The sort rank of the severity: errors before warnings.
    pub fn sort_rank(self) -> (rank: u8)
        ensures
            rank as nat == severity_rank(self),
    {
        match self {
            FacadeIssueSeverity::Error => 0,
            FacadeIssueSeverity::Warning => 1,
        }
    }
}

/// The repair that RustUse can make for an issue.
#[derive(Clone, Copy, Debug, PartialEq, Eq, Structural, Hash)]
pub enum FacadeFixKind {
    AddWorkspaceLints,
    RestoreStandardFile,
    RestoreStandardDirectory,
    RestoreGithubWorkflow,
    RemoveNonStandardPath,
}

/// One issue found in a facade repository.
#[derive(Debug)]
pub struct FacadeIssue {
    pub severity: FacadeIssueSeverity,
    pub code: FacadeIssueCode,
    pub path: Option<String>,
    pub message: String,
    pub fix: Option<FacadeFixKind>,
}

/// The content of a facade issue.
pub struct FacadeIssueView {
    pub severity: FacadeIssueSeverity,
    pub code: FacadeIssueCode,
    pub path: Option<Seq<char>>,
    pub message: Seq<char>,
    pub fix: Option<FacadeFixKind>,
}

impl View for FacadeIssue {
    type V = FacadeIssueView;

    open spec fn view(&self) -> FacadeIssueView {
        FacadeIssueView {
            severity: self.severity,
            code: self.code,
            path: match self.path {
                Some(p) => Some(p@),
                None => None,
            },
            message: self.message@,
            fix: self.fix,
        }
    }
}

/// The contents of a sequence of facade issues.
pub open spec fn facade_issue_views(s: Seq<FacadeIssue>) -> Seq<FacadeIssueView> {
    s.map_values(|i: FacadeIssue| i@)
}

/// A warning at `path` with the given message and repair.
pub open spec fn facade_warning(code: FacadeIssueCode, path: Seq<char>, message: Seq<char>, fix: Option<FacadeFixKind>) -> FacadeIssueView {
    FacadeIssueView { severity: FacadeIssueSeverity::Warning, code, path: Some(path), message, fix }
}

/// An error at `path` with the given message and repair.
pub open spec fn facade_error(code: FacadeIssueCode, path: Seq<char>, message: Seq<char>, fix: Option<FacadeFixKind>) -> FacadeIssueView {
    FacadeIssueView { severity: FacadeIssueSeverity::Error, code, path: Some(path), message, fix }
}

impl FacadeIssue {
    /// An issue with no repair.
    pub fn new(severity: FacadeIssueSeverity, code: FacadeIssueCode, path: Option<String>, message: String) -> (issue: FacadeIssue)
        ensures
            issue == (FacadeIssue { severity, code, path, message, fix: None }),
    {
        FacadeIssue { severity, code, path, message, fix: None }
    }

    /// An error with no repair.
    pub fn error(code: FacadeIssueCode, path: Option<String>, message: String) -> (issue: FacadeIssue)
        ensures
            issue == (FacadeIssue { severity: FacadeIssueSeverity::Error, code, path, message, fix: None }),
    {
        Self::new(FacadeIssueSeverity::Error, code, path, message)
    }

    /// A warning with no repair.
    pub fn warning(code: FacadeIssueCode, path: Option<String>, message: String) -> (issue: FacadeIssue)
        ensures
            issue == (FacadeIssue { severity: FacadeIssueSeverity::Warning, code, path, message, fix: None }),
    {
        Self::new(FacadeIssueSeverity::Warning, code, path, message)
    }

    /// The bucket of the issue's code.
    pub fn bucket(&self) -> (b: FacadeIssueBucket)
        ensures
            b == code_bucket(self.code),
    {
        self.code.bucket()
    }

    /// The same issue with `fix` as its repair.
    pub fn with_fix(self, fix: FacadeFixKind) -> (issue: FacadeIssue)
        ensures
            issue == (FacadeIssue { fix: Some(fix), ..self }),
    {
        FacadeIssue { fix: Some(fix), ..self }
    }
}

/// The overall health of a facade, ordered `Healthy < Warning < Error`.
#[derive(Clone, Copy, Debug, PartialEq, Eq, Structural, Hash)]
pub enum FacadeStatus {
    Healthy,
    Warning,
    Error,
}

/// The label of a status.
pub open spec fn status_label(s: FacadeStatus) -> Seq<char> {
    match s {
        FacadeStatus::Healthy => "ok"@,
        FacadeStatus::Warning => "warning"@,
        FacadeStatus::Error => "error"@,
    }
}

/// The rank of a status: `Healthy` 0, `Warning` 1, `Error` 2.
pub open spec fn status_rank(s: FacadeStatus) -> nat {
    match s {
        FacadeStatus::Healthy => 0,
        FacadeStatus::Warning => 1,
        FacadeStatus::Error => 2,
    }
}

/// The status that error and warning counts give.
pub open spec fn status_from_counts(errors: nat, warnings: nat) -> FacadeStatus {
    if errors > 0 {
        FacadeStatus::Error
    } else if warnings > 0 {
        FacadeStatus::Warning
    } else {
        FacadeStatus::Healthy
    }
}

/// The worse of two statuses.
pub open spec fn worse(a: FacadeStatus, b: FacadeStatus) -> FacadeStatus {
    if status_rank(a) >= status_rank(b) {
        a
    } else {
        b
    }
}

impl FacadeStatus {
    /// The label of the status.
    pub fn as_str(self) -> (label: &'static str)
        ensures
            label@ == status_label(self),
    {
        match self {
            FacadeStatus::Healthy => "ok",
            FacadeStatus::Warning => "warning",
            FacadeStatus::Error => "error",
        }
    }

    /// `Error` when there are errors, else `Warning` when there are warnings,
    /// else `Healthy`.
    pub fn from_error_warning_counts(errors: usize, warnings: usize) -> (s: FacadeStatus)
        ensures
            s == status_from_counts(errors as nat, warnings as nat),
    {
        if errors > 0 {
            FacadeStatus::Error
        } else if warnings > 0 {
            FacadeStatus::Warning
        } else {
            FacadeStatus::Healthy
        }
    }

    /// The worse of the two statuses.
    pub fn combine(self, other: FacadeStatus) -> (s: FacadeStatus)
        ensures
            s == worse(self, other),
    {
        match (self, other) {
            (FacadeStatus::Error, _) | (_, FacadeStatus::Error) => FacadeStatus::Error,
            (FacadeStatus::Warning, _) | (_, FacadeStatus::Warning) => FacadeStatus::Warning,
            (FacadeStatus::Healthy, FacadeStatus::Healthy) => FacadeStatus::Healthy,
        }
    }
}

/// Combining statuses keeps the worst one: the operation is commutative,
/// associative and idempotent, `Healthy` changes nothing and `Error` absorbs all.
pub proof fn lemma_combine_is_worst(a: FacadeStatus, b: FacadeStatus, c: FacadeStatus)
    ensures
        worse(a, b) == worse(b, a),
        worse(worse(a, b), c) == worse(a, worse(b, c)),
        worse(a, a) == a,
        worse(a, FacadeStatus::Healthy) == a,
        worse(a, FacadeStatus::Error) == FacadeStatus::Error,
        status_rank(worse(a, b)) >= status_rank(a),
        status_rank(worse(a, b)) >= status_rank(b),
{
}

/// Whether a facade crate is the facade package itself or one of its
/// children.
#[derive(Clone, Copy, Debug, PartialEq, Eq, Structural, Hash)]
pub enum FacadeCrateKind {
    Facade,
    Child,
}

/// The label of a crate kind.
pub open spec fn crate_kind_label(k: FacadeCrateKind) -> Seq<char> {
    match k {
        FacadeCrateKind::Facade => "facade"@,
        FacadeCrateKind::Child => "child"@,
    }
}

impl FacadeCrateKind {
    /// The label of the crate kind.
    pub fn as_str(self) -> (label: &'static str)
        ensures
            label@ == crate_kind_label(self),
    {
        match self {
            FacadeCrateKind::Facade => "facade",
            FacadeCrateKind::Child => "child",
        }
    }
}

} // verus!
