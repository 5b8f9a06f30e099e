//! Issues found while checking a facade repository's `.github` directory.

use vstd::prelude::*;

verus! {

/// How serious a `.github` issue is. Errors sort first, then warnings,
/// then informational issues.
#[derive(Clone, Copy, Debug, PartialEq, Eq, Structural, Hash)]
pub enum GithubIssueSeverity {
    Error,
    Warning,
    Info,
}

/// The label of a severity.
pub open spec fn github_severity_label(s: GithubIssueSeverity) -> Seq<char> {
    match s {
        GithubIssueSeverity::Error => "error"@,
        GithubIssueSeverity::Warning => "warning"@,
        GithubIssueSeverity::Info => "info"@,
    }
}

/// The position of a severity in the sort order.
pub open spec fn github_severity_rank(s: GithubIssueSeverity) -> nat {
    match s {
        GithubIssueSeverity::Error => 0,
        GithubIssueSeverity::Warning => 1,
        GithubIssueSeverity::Info => 2,
    }
}

impl GithubIssueSeverity {
    /// The user-facing label of the severity.
    pub fn as_str(self) -> (label: &'static str)
        ensures
            label@ == github_severity_label(self),
    {
        match self {
            GithubIssueSeverity::Error => "error",
            GithubIssueSeverity::Warning => "warning",
            GithubIssueSeverity::Info => "info",
        }
    }

    /// The position of the severity in the sort order.
    pub fn rank(self) -> (r: u8)
        ensures
            r as nat == github_severity_rank(self),
    {
        match self {
            GithubIssueSeverity::Error => 0,
            GithubIssueSeverity::Warning => 1,
            GithubIssueSeverity::Info => 2,
        }
    }
}

/// The stable code of a `.github` issue.
#[derive(Clone, Copy, Debug, PartialEq, Eq, Structural, Hash)]
pub enum GithubIssueCode {
    /// No issue: the record of a check that passed.
    NoIssue,
    MissingGithubDirectory,
    InvalidGithubDirectory,
    MissingGithubWorkflowsDirectory,
    InvalidGithubWorkflowsDirectory,
    MissingGithubIssueTemplateDirectory,
    MissingGithubWorkflow,
    StaleGithubWorkflow,
    InvalidGithubWorkflow,
    MissingGithubDependabot,
    StaleGithubDependabot,
    InvalidGithubDependabot,
    MissingGithubFunding,
    StaleGithubFunding,
    InvalidGithubFunding,
    MissingGithubIssueTemplate,
    StaleGithubIssueTemplate,
    InvalidGithubIssueTemplate,
    MissingGithubPullRequestTemplate,
    StaleGithubPullRequestTemplate,
    InvalidGithubPullRequestTemplate,
}

/// The kebab-case label of a code.
pub open spec fn github_code_label(c: GithubIssueCode) -> Seq<char> {
    match c {
        GithubIssueCode::NoIssue => "ok"@,
        GithubIssueCode::MissingGithubDirectory => "missing-github-directory"@,
        GithubIssueCode::InvalidGithubDirectory => "invalid-github-directory"@,
        GithubIssueCode::MissingGithubWorkflowsDirectory => "missing-github-workflows-directory"@,
        GithubIssueCode::InvalidGithubWorkflowsDirectory => "invalid-github-workflows-directory"@,
        GithubIssueCode::MissingGithubIssueTemplateDirectory => "missing-github-issue-template-directory"@,
        GithubIssueCode::MissingGithubWorkflow => "missing-github-workflow"@,
        GithubIssueCode::StaleGithubWorkflow => "stale-github-workflow"@,
        GithubIssueCode::InvalidGithubWorkflow => "invalid-github-workflow"@,
        GithubIssueCode::MissingGithubDependabot => "missing-github-dependabot"@,
        GithubIssueCode::StaleGithubDependabot => "stale-github-dependabot"@,
        GithubIssueCode::InvalidGithubDependabot => "invalid-github-dependabot"@,
        GithubIssueCode::MissingGithubFunding => "missing-github-funding"@,
        GithubIssueCode::StaleGithubFunding => "stale-github-funding"@,
        GithubIssueCode::InvalidGithubFunding => "invalid-github-funding"@,
        GithubIssueCode::MissingGithubIssueTemplate => "missing-github-issue-template"@,
        GithubIssueCode::StaleGithubIssueTemplate => "stale-github-issue-template"@,
        GithubIssueCode::InvalidGithubIssueTemplate => "invalid-github-issue-template"@,
        GithubIssueCode::MissingGithubPullRequestTemplate => "missing-github-pr-template"@,
        GithubIssueCode::StaleGithubPullRequestTemplate => "stale-github-pr-template"@,
        GithubIssueCode::InvalidGithubPullRequestTemplate => "invalid-github-pr-template"@,
    }
}

/// The position of a code in declaration order, by which issues with the
/// same severity and path are sorted.
pub open spec fn github_code_rank(c: GithubIssueCode) -> nat {
    match c {
        GithubIssueCode::NoIssue => 0,
        GithubIssueCode::MissingGithubDirectory => 1,
        GithubIssueCode::InvalidGithubDirectory => 2,
        GithubIssueCode::MissingGithubWorkflowsDirectory => 3,
        GithubIssueCode::InvalidGithubWorkflowsDirectory => 4,
        GithubIssueCode::MissingGithubIssueTemplateDirectory => 5,
        GithubIssueCode::MissingGithubWorkflow => 6,
        GithubIssueCode::StaleGithubWorkflow => 7,
        GithubIssueCode::InvalidGithubWorkflow => 8,
        GithubIssueCode::MissingGithubDependabot => 9,
        GithubIssueCode::StaleGithubDependabot => 10,
        GithubIssueCode::InvalidGithubDependabot => 11,
        GithubIssueCode::MissingGithubFunding => 12,
        GithubIssueCode::StaleGithubFunding => 13,
        GithubIssueCode::InvalidGithubFunding => 14,
        GithubIssueCode::MissingGithubIssueTemplate => 15,
        GithubIssueCode::StaleGithubIssueTemplate => 16,
        GithubIssueCode::InvalidGithubIssueTemplate => 17,
        GithubIssueCode::MissingGithubPullRequestTemplate => 18,
        GithubIssueCode::StaleGithubPullRequestTemplate => 19,
        GithubIssueCode::InvalidGithubPullRequestTemplate => 20,
    }
}

impl GithubIssueCode {
    /// The stable kebab-case label of the code.
    pub fn as_str(self) -> (label: &'static str)
        ensures
            label@ == github_code_label(self),
    {
        match self {
            GithubIssueCode::NoIssue => "ok",
            GithubIssueCode::MissingGithubDirectory => "missing-github-directory",
            GithubIssueCode::InvalidGithubDirectory => "invalid-github-directory",
            GithubIssueCode::MissingGithubWorkflowsDirectory => "missing-github-workflows-directory",
            GithubIssueCode::InvalidGithubWorkflowsDirectory => "invalid-github-workflows-directory",
            GithubIssueCode::MissingGithubIssueTemplateDirectory => "missing-github-issue-template-directory",
            GithubIssueCode::MissingGithubWorkflow => "missing-github-workflow",
            GithubIssueCode::StaleGithubWorkflow => "stale-github-workflow",
            GithubIssueCode::InvalidGithubWorkflow => "invalid-github-workflow",
            GithubIssueCode::MissingGithubDependabot => "missing-github-dependabot",
            GithubIssueCode::StaleGithubDependabot => "stale-github-dependabot",
            GithubIssueCode::InvalidGithubDependabot => "invalid-github-dependabot",
            GithubIssueCode::MissingGithubFunding => "missing-github-funding",
            GithubIssueCode::StaleGithubFunding => "stale-github-funding",
            GithubIssueCode::InvalidGithubFunding => "invalid-github-funding",
            GithubIssueCode::MissingGithubIssueTemplate => "missing-github-issue-template",
            GithubIssueCode::StaleGithubIssueTemplate => "stale-github-issue-template",
            GithubIssueCode::InvalidGithubIssueTemplate => "invalid-github-issue-template",
            GithubIssueCode::MissingGithubPullRequestTemplate => "missing-github-pr-template",
            GithubIssueCode::StaleGithubPullRequestTemplate => "stale-github-pr-template",
            GithubIssueCode::InvalidGithubPullRequestTemplate => "invalid-github-pr-template",
        }
    }

    /// The position of the code in declaration order.
    pub fn rank(self) -> (r: u8)
        ensures
            r as nat == github_code_rank(self),
    {
        match self {
            GithubIssueCode::NoIssue => 0,
            GithubIssueCode::MissingGithubDirectory => 1,
            GithubIssueCode::InvalidGithubDirectory => 2,
            GithubIssueCode::MissingGithubWorkflowsDirectory => 3,
            GithubIssueCode::InvalidGithubWorkflowsDirectory => 4,
            GithubIssueCode::MissingGithubIssueTemplateDirectory => 5,
            GithubIssueCode::MissingGithubWorkflow => 6,
            GithubIssueCode::StaleGithubWorkflow => 7,
            GithubIssueCode::InvalidGithubWorkflow => 8,
            GithubIssueCode::MissingGithubDependabot => 9,
            GithubIssueCode::StaleGithubDependabot => 10,
            GithubIssueCode::InvalidGithubDependabot => 11,
            GithubIssueCode::MissingGithubFunding => 12,
            GithubIssueCode::StaleGithubFunding => 13,
            GithubIssueCode::InvalidGithubFunding => 14,
            GithubIssueCode::MissingGithubIssueTemplate => 15,
            GithubIssueCode::StaleGithubIssueTemplate => 16,
            GithubIssueCode::InvalidGithubIssueTemplate => 17,
            GithubIssueCode::MissingGithubPullRequestTemplate => 18,
            GithubIssueCode::StaleGithubPullRequestTemplate => 19,
            GithubIssueCode::InvalidGithubPullRequestTemplate => 20,
        }
    }
}

/// One `.github` consistency issue.
#[derive(Clone, Debug)]
pub struct GithubIssue {
    pub severity: GithubIssueSeverity,
    pub code: GithubIssueCode,
    /// Repository-relative path that the issue concerns.
    pub path: String,
    pub message: String,
}

impl GithubIssue {
    /// An issue with the given parts.
    pub fn new(severity: GithubIssueSeverity, code: GithubIssueCode, path: String, message: String) -> (issue: GithubIssue)
        ensures
            issue.severity == severity,
            issue.code == code,
            issue.path@ == path@,
            issue.message@ == message@,
    {
        GithubIssue { severity, code, path, message }
    }

    /// Whether the issue is an error.
    pub fn is_error(&self) -> (r: bool)
        ensures
            r == (self.severity == GithubIssueSeverity::Error),
    {
        matches!(self.severity, GithubIssueSeverity::Error)
    }

    /// Whether the issue is a warning.
    pub fn is_warning(&self) -> (r: bool)
        ensures
            r == (self.severity == GithubIssueSeverity::Warning),
    {
        matches!(self.severity, GithubIssueSeverity::Warning)
    }

    /// Whether the issue is informational.
    pub fn is_info(&self) -> (r: bool)
        ensures
            r == (self.severity == GithubIssueSeverity::Info),
    {
        matches!(self.severity, GithubIssueSeverity::Info)
    }
}


/// The rank of the code whose label is `s`, told apart by the label's
/// length and first letter.
spec fn label_rank(s: Seq<char>) -> nat {
    if s.len() == 2 {
        0
    } else if s.len() == 24 && s[0] == 'm' {
        1
    } else if s.len() == 24 && s[0] == 'i' {
        2
    } else if s.len() == 34 && s[0] == 'm' {
        3
    } else if s.len() == 34 && s[0] == 'i' {
        4
    } else if s.len() == 39 && s[0] == 'm' {
        5
    } else if s.len() == 23 && s[0] == 'm' {
        6
    } else if s.len() == 21 && s[0] == 's' {
        7
    } else if s.len() == 23 && s[0] == 'i' {
        8
    } else if s.len() == 25 && s[0] == 'm' {
        9
    } else if s.len() == 23 && s[0] == 's' {
        10
    } else if s.len() == 25 && s[0] == 'i' {
        11
    } else if s.len() == 22 && s[0] == 'm' {
        12
    } else if s.len() == 20 && s[0] == 's' {
        13
    } else if s.len() == 22 && s[0] == 'i' {
        14
    } else if s.len() == 29 && s[0] == 'm' {
        15
    } else if s.len() == 27 && s[0] == 's' {
        16
    } else if s.len() == 29 && s[0] == 'i' {
        17
    } else if s.len() == 26 && s[0] == 'm' {
        18
    } else if s.len() == 24 && s[0] == 's' {
        19
    } else if s.len() == 26 && s[0] == 'i' {
        20
    } else {
        21
    }
}

/// The code at a position in declaration order.
spec fn code_at_rank(n: nat) -> GithubIssueCode {
    if n == 1 {
        GithubIssueCode::MissingGithubDirectory
    } else if n == 2 {
        GithubIssueCode::InvalidGithubDirectory
    } else if n == 3 {
        GithubIssueCode::MissingGithubWorkflowsDirectory
    } else if n == 4 {
        GithubIssueCode::InvalidGithubWorkflowsDirectory
    } else if n == 5 {
        GithubIssueCode::MissingGithubIssueTemplateDirectory
    } else if n == 6 {
        GithubIssueCode::MissingGithubWorkflow
    } else if n == 7 {
        GithubIssueCode::StaleGithubWorkflow
    } else if n == 8 {
        GithubIssueCode::InvalidGithubWorkflow
    } else if n == 9 {
        GithubIssueCode::MissingGithubDependabot
    } else if n == 10 {
        GithubIssueCode::StaleGithubDependabot
    } else if n == 11 {
        GithubIssueCode::InvalidGithubDependabot
    } else if n == 12 {
        GithubIssueCode::MissingGithubFunding
    } else if n == 13 {
        GithubIssueCode::StaleGithubFunding
    } else if n == 14 {
        GithubIssueCode::InvalidGithubFunding
    } else if n == 15 {
        GithubIssueCode::MissingGithubIssueTemplate
    } else if n == 16 {
        GithubIssueCode::StaleGithubIssueTemplate
    } else if n == 17 {
        GithubIssueCode::InvalidGithubIssueTemplate
    } else if n == 18 {
        GithubIssueCode::MissingGithubPullRequestTemplate
    } else if n == 19 {
        GithubIssueCode::StaleGithubPullRequestTemplate
    } else if n == 20 {
        GithubIssueCode::InvalidGithubPullRequestTemplate
    } else {
        GithubIssueCode::NoIssue
    }
}

proof fn lemma_label_rank(c: GithubIssueCode)
    ensures
        label_rank(github_code_label(c)) == github_code_rank(c),
        code_at_rank(github_code_rank(c)) == c,
{
    match c {
        GithubIssueCode::NoIssue => {
            reveal_strlit("ok");
        },
        GithubIssueCode::MissingGithubDirectory => {
            reveal_strlit("missing-github-directory");
        },
        GithubIssueCode::InvalidGithubDirectory => {
            reveal_strlit("invalid-github-directory");
        },
        GithubIssueCode::MissingGithubWorkflowsDirectory => {
            reveal_strlit("missing-github-workflows-directory");
        },
        GithubIssueCode::InvalidGithubWorkflowsDirectory => {
            reveal_strlit("invalid-github-workflows-directory");
        },
        GithubIssueCode::MissingGithubIssueTemplateDirectory => {
            reveal_strlit("missing-github-issue-template-directory");
        },
        GithubIssueCode::MissingGithubWorkflow => {
            reveal_strlit("missing-github-workflow");
        },
        GithubIssueCode::StaleGithubWorkflow => {
            reveal_strlit("stale-github-workflow");
        },
        GithubIssueCode::InvalidGithubWorkflow => {
            reveal_strlit("invalid-github-workflow");
        },
        GithubIssueCode::MissingGithubDependabot => {
            reveal_strlit("missing-github-dependabot");
        },
        GithubIssueCode::StaleGithubDependabot => {
            reveal_strlit("stale-github-dependabot");
        },
        GithubIssueCode::InvalidGithubDependabot => {
            reveal_strlit("invalid-github-dependabot");
        },
        GithubIssueCode::MissingGithubFunding => {
            reveal_strlit("missing-github-funding");
        },
        GithubIssueCode::StaleGithubFunding => {
            reveal_strlit("stale-github-funding");
        },
        GithubIssueCode::InvalidGithubFunding => {
            reveal_strlit("invalid-github-funding");
        },
        GithubIssueCode::MissingGithubIssueTemplate => {
            reveal_strlit("missing-github-issue-template");
        },
        GithubIssueCode::StaleGithubIssueTemplate => {
            reveal_strlit("stale-github-issue-template");
        },
        GithubIssueCode::InvalidGithubIssueTemplate => {
            reveal_strlit("invalid-github-issue-template");
        },
        GithubIssueCode::MissingGithubPullRequestTemplate => {
            reveal_strlit("missing-github-pr-template");
        },
        GithubIssueCode::StaleGithubPullRequestTemplate => {
            reveal_strlit("stale-github-pr-template");
        },
        GithubIssueCode::InvalidGithubPullRequestTemplate => {
            reveal_strlit("invalid-github-pr-template");
        },
    }
}

/// Distinct codes have distinct labels.
pub proof fn lemma_github_code_labels_unique(a: GithubIssueCode, b: GithubIssueCode)
    ensures
        github_code_label(a) == github_code_label(b) ==> a == b,
{
    lemma_label_rank(a);
    lemma_label_rank(b);
}

/// Every code's label is lower-case kebab-case.
#[verifier::rlimit(50)]
pub proof fn lemma_github_code_labels_kebab_case(c: GithubIssueCode)
    ensures
        crate::codes::is_kebab_case(github_code_label(c)),
{
    match c {
        GithubIssueCode::NoIssue => {
            reveal_strlit("ok");
        },
        GithubIssueCode::MissingGithubDirectory => {
            reveal_strlit("missing-github-directory");
        },
        GithubIssueCode::InvalidGithubDirectory => {
            reveal_strlit("invalid-github-directory");
        },
        GithubIssueCode::MissingGithubWorkflowsDirectory => {
            reveal_strlit("missing-github-workflows-directory");
        },
        GithubIssueCode::InvalidGithubWorkflowsDirectory => {
            reveal_strlit("invalid-github-workflows-directory");
        },
        GithubIssueCode::MissingGithubIssueTemplateDirectory => {
            reveal_strlit("missing-github-issue-template-directory");
        },
        GithubIssueCode::MissingGithubWorkflow => {
            reveal_strlit("missing-github-workflow");
        },
        GithubIssueCode::StaleGithubWorkflow => {
            reveal_strlit("stale-github-workflow");
        },
        GithubIssueCode::InvalidGithubWorkflow => {
            reveal_strlit("invalid-github-workflow");
        },
        GithubIssueCode::MissingGithubDependabot => {
            reveal_strlit("missing-github-dependabot");
        },
        GithubIssueCode::StaleGithubDependabot => {
            reveal_strlit("stale-github-dependabot");
        },
        GithubIssueCode::InvalidGithubDependabot => {
            reveal_strlit("invalid-github-dependabot");
        },
        GithubIssueCode::MissingGithubFunding => {
            reveal_strlit("missing-github-funding");
        },
        GithubIssueCode::StaleGithubFunding => {
            reveal_strlit("stale-github-funding");
        },
        GithubIssueCode::InvalidGithubFunding => {
            reveal_strlit("invalid-github-funding");
        },
        GithubIssueCode::MissingGithubIssueTemplate => {
            reveal_strlit("missing-github-issue-template");
        },
        GithubIssueCode::StaleGithubIssueTemplate => {
            reveal_strlit("stale-github-issue-template");
        },
        GithubIssueCode::InvalidGithubIssueTemplate => {
            reveal_strlit("invalid-github-issue-template");
        },
        GithubIssueCode::MissingGithubPullRequestTemplate => {
            reveal_strlit("missing-github-pr-template");
        },
        GithubIssueCode::StaleGithubPullRequestTemplate => {
            reveal_strlit("stale-github-pr-template");
        },
        GithubIssueCode::InvalidGithubPullRequestTemplate => {
            reveal_strlit("invalid-github-pr-template");
        },
    }
}

} // verus!
