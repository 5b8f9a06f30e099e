//! Reports of Cargo manifest analysis: issues, per-file reports, and the
//! report for one facade repository.

use vstd::prelude::*;

use crate::codes::FacadeIssueCode;

verus! {

/// How serious a manifest issue is.
#[derive(Clone, Copy, Debug, PartialEq, Eq, Structural, Hash)]
pub enum ManifestIssueSeverity {
    Error,
    Warning,
}

/// The label of a manifest issue severity.
pub open spec fn manifest_severity_label(s: ManifestIssueSeverity) -> Seq<char> {
    match s {
        ManifestIssueSeverity::Error => "error"@,
        ManifestIssueSeverity::Warning => "warning"@,
    }
}

impl ManifestIssueSeverity {
    /// The label of the severity.
    pub fn as_str(self) -> (label: &'static str)
        ensures
            label@ == manifest_severity_label(self),
    {
        match self {
            ManifestIssueSeverity::Error => "error",
            ManifestIssueSeverity::Warning => "warning",
        }
    }
}

/// One issue found in a Cargo manifest.
#[derive(Debug)]
pub struct ManifestIssue {
    pub severity: ManifestIssueSeverity,
    pub code: FacadeIssueCode,
    pub message: String,
}

/// The content of a manifest issue.
pub struct IssueView {
    pub severity: ManifestIssueSeverity,
    pub code: FacadeIssueCode,
    pub message: Seq<char>,
}

impl View for ManifestIssue {
    type V = IssueView;

    open spec fn view(&self) -> IssueView {
        IssueView { severity: self.severity, code: self.code, message: self.message@ }
    }
}

/// The contents of a sequence of issues.
pub open spec fn issue_views(s: Seq<ManifestIssue>) -> Seq<IssueView> {
    s.map_values(|i: ManifestIssue| i@)
}

/// A warning with the given code and message.
pub open spec fn warn(code: FacadeIssueCode, message: Seq<char>) -> IssueView {
    IssueView { severity: ManifestIssueSeverity::Warning, code, message }
}

/// An error with the given code and message.
pub open spec fn err(code: FacadeIssueCode, message: Seq<char>) -> IssueView {
    IssueView { severity: ManifestIssueSeverity::Error, code, message }
}

impl ManifestIssue {
    /// An error issue.
    pub fn error(code: FacadeIssueCode, message: String) -> (issue: ManifestIssue)
        ensures
            issue@ == err(code, message@),
    {
        ManifestIssue { severity: ManifestIssueSeverity::Error, code, message }
    }

    /// A warning issue.
    pub fn warning(code: FacadeIssueCode, message: String) -> (issue: ManifestIssue)
        ensures
            issue@ == warn(code, message@),
    {
        ManifestIssue { severity: ManifestIssueSeverity::Warning, code, message }
    }
}

/// Appends a warning to `issues`.
pub fn push_warning(issues: &mut Vec<ManifestIssue>, code: FacadeIssueCode, message: String)
    ensures
        issue_views(final(issues)@) == issue_views(old(issues)@).push(warn(code, message@)),
{
    issues.push(ManifestIssue::warning(code, message));
    assert(issue_views(final(issues)@) =~= issue_views(old(issues)@).push(warn(code, message@)));
}

/// Appends an error to `issues`.
pub fn push_error(issues: &mut Vec<ManifestIssue>, code: FacadeIssueCode, message: String)
    ensures
        issue_views(final(issues)@) == issue_views(old(issues)@).push(err(code, message@)),
{
    issues.push(ManifestIssue::error(code, message));
    assert(issue_views(final(issues)@) =~= issue_views(old(issues)@).push(err(code, message@)));
}

/// The number of issues in `s` with severity `sev`.
pub open spec fn count_severity(s: Seq<IssueView>, sev: ManifestIssueSeverity) -> nat
    decreases s.len(),
{
    if s.len() == 0 {
        0
    } else {
        count_severity(s.drop_last(), sev) + if s.last().severity == sev { 1nat } else { 0nat }
    }
}

/// The number of issues in `s` with code `code`.
pub open spec fn count_code(s: Seq<IssueView>, code: FacadeIssueCode) -> nat
    decreases s.len(),
{
    if s.len() == 0 {
        0
    } else {
        count_code(s.drop_last(), code) + if s.last().code == code { 1nat } else { 0nat }
    }
}

/// A count never exceeds the number of issues.
pub proof fn lemma_count_severity_bound(s: Seq<IssueView>, sev: ManifestIssueSeverity)
    ensures
        count_severity(s, sev) <= s.len(),
    decreases s.len(),
{
    if s.len() > 0 {
        lemma_count_severity_bound(s.drop_last(), sev);
    }
}

/// Errors and warnings together are all the issues.
pub proof fn lemma_errors_and_warnings_partition(s: Seq<IssueView>)
    ensures
        count_severity(s, ManifestIssueSeverity::Error) + count_severity(s, ManifestIssueSeverity::Warning) == s.len(),
    decreases s.len(),
{
    if s.len() > 0 {
        lemma_errors_and_warnings_partition(s.drop_last());
    }
}

/// The number of issues in `issues` with severity `sev`.
pub fn severity_count(issues: &Vec<ManifestIssue>, sev: ManifestIssueSeverity) -> (n: usize)
    ensures
        n as nat == count_severity(issue_views(issues@), sev),
{
    let ghost all = issue_views(issues@);
    let mut n: usize = 0;
    let mut i: usize = 0;
    while i < issues.len()
        invariant
            all == issue_views(issues@),
            i <= issues.len(),
            n as nat == count_severity(all.take(i as int), sev),
            n <= i,
        decreases issues.len() - i,
    {
        assert(all.take(i + 1).drop_last() =~= all.take(i as int));
        if issues[i].severity == sev {
            n = n + 1;
        }
        i = i + 1;
    }
    assert(all.take(i as int) =~= all);
    n
}

/// The number of issues in `issues` with code `code`.
pub fn code_count(issues: &Vec<ManifestIssue>, code: FacadeIssueCode) -> (n: usize)
    ensures
        n as nat == count_code(issue_views(issues@), code),
{
    let ghost all = issue_views(issues@);
    let mut n: usize = 0;
    let mut i: usize = 0;
    while i < issues.len()
        invariant
            all == issue_views(issues@),
            i <= issues.len(),
            n as nat == count_code(all.take(i as int), code),
            n <= i,
        decreases issues.len() - i,
    {
        assert(all.take(i + 1).drop_last() =~= all.take(i as int));
        if issues[i].code == code {
            n = n + 1;
        }
        i = i + 1;
    }
    assert(all.take(i as int) =~= all);
    n
}

/// Which manifest of a facade repository a report is about.
#[derive(Clone, Copy, Debug, PartialEq, Eq, Structural, Hash)]
pub enum ManifestKind {
    WorkspaceRoot,
    FacadePackage,
    ChildPackage,
}

/// The label of a manifest kind.
pub open spec fn manifest_kind_label(k: ManifestKind) -> Seq<char> {
    match k {
        ManifestKind::WorkspaceRoot => "workspace-root"@,
        ManifestKind::FacadePackage => "facade-package"@,
        ManifestKind::ChildPackage => "child-package"@,
    }
}

impl ManifestKind {
    /// The label of the manifest kind.
    pub fn as_str(self) -> (label: &'static str)
        ensures
            label@ == manifest_kind_label(self),
    {
        match self {
            ManifestKind::WorkspaceRoot => "workspace-root",
            ManifestKind::FacadePackage => "facade-package",
            ManifestKind::ChildPackage => "child-package",
        }
    }
}

/// The status label that error and warning counts give.
pub open spec fn count_status(errors: nat, warnings: nat) -> Seq<char> {
    if errors > 0 {
        "error"@
    } else if warnings > 0 {
        "warning"@
    } else {
        "ok"@
    }
}

/// The issues found in one manifest file.
#[derive(Debug)]
pub struct ManifestFileReport {
    pub path: String,
    pub kind: ManifestKind,
    pub package_name: Option<String>,
    pub issues: Vec<ManifestIssue>,
}

impl ManifestFileReport {
    /// The number of issues.
    pub fn issue_count(&self) -> (n: usize)
        ensures
            n == self.issues@.len(),
    {
        self.issues.len()
    }

    /// The number of errors.
    pub fn error_count(&self) -> (n: usize)
        ensures
            n as nat == count_severity(issue_views(self.issues@), ManifestIssueSeverity::Error),
    {
        severity_count(&self.issues, ManifestIssueSeverity::Error)
    }

    /// The number of warnings.
    pub fn warning_count(&self) -> (n: usize)
        ensures
            n as nat == count_severity(issue_views(self.issues@), ManifestIssueSeverity::Warning),
    {
        severity_count(&self.issues, ManifestIssueSeverity::Warning)
    }

    /// The number of invalid crates.io category slugs.
    pub fn invalid_category_count(&self) -> (n: usize)
        ensures
            n as nat == count_code(issue_views(self.issues@), FacadeIssueCode::InvalidCategorySlug),
    {
        code_count(&self.issues, FacadeIssueCode::InvalidCategorySlug)
    }

    /// `error` with errors, else `warning` with warnings, else `ok`.
    pub fn status(&self) -> (label: &'static str)
        ensures
            label@ == count_status(
                count_severity(issue_views(self.issues@), ManifestIssueSeverity::Error),
                count_severity(issue_views(self.issues@), ManifestIssueSeverity::Warning),
            ),
    {
        if self.error_count() > 0 {
            "error"
        } else if self.warning_count() > 0 {
            "warning"
        } else {
            "ok"
        }
    }
}

/// The sum of `f` over the manifest reports of `s`, in `nat`.
pub open spec fn sum_over(s: Seq<ManifestFileReport>, f: spec_fn(ManifestFileReport) -> nat) -> nat
    decreases s.len(),
{
    if s.len() == 0 {
        0
    } else {
        sum_over(s.drop_last(), f) + f(s.last())
    }
}

/// The number of issues of a manifest report.
pub open spec fn issues_of(r: ManifestFileReport) -> nat {
    r.issues@.len()
}

/// The number of errors of a manifest report.
pub open spec fn errors_of(r: ManifestFileReport) -> nat {
    count_severity(issue_views(r.issues@), ManifestIssueSeverity::Error)
}

/// The number of warnings of a manifest report.
pub open spec fn warnings_of(r: ManifestFileReport) -> nat {
    count_severity(issue_views(r.issues@), ManifestIssueSeverity::Warning)
}

/// The number of invalid category slugs of a manifest report.
pub open spec fn invalid_categories_of(r: ManifestFileReport) -> nat {
    count_code(issue_views(r.issues@), FacadeIssueCode::InvalidCategorySlug)
}

/// `n`, or `usize::MAX` when `n` does not fit.
pub open spec fn capped(n: nat) -> nat {
    if n > usize::MAX { usize::MAX as nat } else { n }
}

/// The manifest reports of one facade repository.
#[derive(Debug)]
pub struct FacadeManifestReport {
    pub facade_name: String,
    pub manifests: Vec<ManifestFileReport>,
}

/// Which per-manifest count a sum is over.
#[derive(Clone, Copy, Debug, PartialEq, Eq, Structural)]
pub enum ManifestCount {
    Issues,
    Errors,
    Warnings,
    InvalidCategories,
}

/// The per-manifest count function that `which` names.
pub open spec fn count_fn(which: ManifestCount) -> spec_fn(ManifestFileReport) -> nat {
    match which {
        ManifestCount::Issues => |r: ManifestFileReport| issues_of(r),
        ManifestCount::Errors => |r: ManifestFileReport| errors_of(r),
        ManifestCount::Warnings => |r: ManifestFileReport| warnings_of(r),
        ManifestCount::InvalidCategories => |r: ManifestFileReport| invalid_categories_of(r),
    }
}

/// Adds up one per-manifest count over `manifests`, capped at `usize::MAX`.
pub fn sum_count(manifests: &Vec<ManifestFileReport>, which: ManifestCount) -> (n: usize)
    ensures
        n as nat == capped(sum_over(manifests@, count_fn(which))),
{
    let ghost f = count_fn(which);
    let mut n: usize = 0;
    let mut i: usize = 0;
    while i < manifests.len()
        invariant
            f == count_fn(which),
            i <= manifests.len(),
            n as nat == capped(sum_over(manifests@.take(i as int), f)),
        decreases manifests.len() - i,
    {
        assert(manifests@.take(i + 1).drop_last() =~= manifests@.take(i as int));
        let m = &manifests[i];
        let k: usize = match which {
            ManifestCount::Issues => m.issue_count(),
            ManifestCount::Errors => m.error_count(),
            ManifestCount::Warnings => m.warning_count(),
            ManifestCount::InvalidCategories => m.invalid_category_count(),
        };
        assert(k as nat == f(manifests@[i as int]));
        n = n.saturating_add(k);
        i = i + 1;
    }
    assert(manifests@.take(i as int) =~= manifests@);
    n
}

impl FacadeManifestReport {
    /// The number of manifests inspected.
    pub fn manifest_count(&self) -> (n: usize)
        ensures
            n == self.manifests@.len(),
    {
        self.manifests.len()
    }

    /// The number of issues over all manifests.
    pub fn issue_count(&self) -> (n: usize)
        ensures
            n as nat == capped(sum_over(self.manifests@, count_fn(ManifestCount::Issues))),
    {
        sum_count(&self.manifests, ManifestCount::Issues)
    }

    /// The number of errors over all manifests.
    pub fn error_count(&self) -> (n: usize)
        ensures
            n as nat == capped(sum_over(self.manifests@, count_fn(ManifestCount::Errors))),
    {
        sum_count(&self.manifests, ManifestCount::Errors)
    }

    /// The number of warnings over all manifests.
    pub fn warning_count(&self) -> (n: usize)
        ensures
            n as nat == capped(sum_over(self.manifests@, count_fn(ManifestCount::Warnings))),
    {
        sum_count(&self.manifests, ManifestCount::Warnings)
    }

    /// The number of invalid category slugs over all manifests.
    pub fn invalid_category_count(&self) -> (n: usize)
        ensures
            n as nat == capped(sum_over(self.manifests@, count_fn(ManifestCount::InvalidCategories))),
    {
        sum_count(&self.manifests, ManifestCount::InvalidCategories)
    }

    /// `error` with errors, else `warning` with warnings, else `ok`.
    pub fn status(&self) -> (label: &'static str)
        ensures
            label@ == count_status(
                capped(sum_over(self.manifests@, count_fn(ManifestCount::Errors))),
                capped(sum_over(self.manifests@, count_fn(ManifestCount::Warnings))),
            ),
    {
        if self.error_count() > 0 {
            "error"
        } else if self.warning_count() > 0 {
            "warning"
        } else {
            "ok"
        }
    }
}

} // verus!
