//! The report of a `.github` consistency check: its target, the per-file
//! checks, the issues, and their counts and order.

use vstd::prelude::*;
use vstd::multiset::Multiset;

use crate::github_issue::{github_code_rank, github_severity_rank, GithubIssue, GithubIssueSeverity};
use crate::text::{lemma_seq_lt_transitive, push_char, seq_lt, str_eq, text_less, chars_of};

verus! {

broadcast use vstd::seq_lib::group_to_multiset_ensures;

/// Options for checking a facade repository's `.github` directory.
#[derive(Clone, Debug, PartialEq, Eq, Structural)]
pub struct GithubCheckOptions {
    /// Sort the issues before the report is returned.
    pub sort_issues: bool,
    /// Show the checks that passed in rendered reports.
    pub include_ok_checks: bool,
}

impl Default for GithubCheckOptions {
    fn default() -> (options: GithubCheckOptions)
        ensures
            options.sort_issues,
            options.include_ok_checks,
    {
        GithubCheckOptions { sort_issues: true, include_ok_checks: true }
    }
}

/// Path separator-free tail of `p`: trailing separators and `.` components
/// removed, as a path's components are read.
pub open spec fn trim_path_tail(p: Seq<char>) -> Seq<char>
    decreases p.len(),
{
    if p.len() > 0 && p.last() == '/' {
        trim_path_tail(p.drop_last())
    } else if p =~= seq!['.'] || (p.len() >= 2 && p.last() == '.' && p[p.len() - 2] == '/') {
        trim_path_tail(p.drop_last())
    } else {
        p
    }
}

/// The characters after the last separator of `p`.
pub open spec fn last_segment(p: Seq<char>) -> Seq<char>
    decreases p.len(),
{
    if p.len() == 0 || p.last() == '/' {
        Seq::empty()
    } else {
        last_segment(p.drop_last()).push(p.last())
    }
}

/// The facade name of a repository path: its last normal component, or `.`
/// where the path has none (it is empty, the root, `.`, or ends in `..`).
pub open spec fn facade_name_of(p: Seq<char>) -> Seq<char> {
    let name = last_segment(trim_path_tail(p));
    if name.len() == 0 || name =~= seq!['.', '.'] {
        seq!['.']
    } else {
        name
    }
}

/// A checked facade repository.
#[derive(Clone, Debug)]
pub struct GithubTarget {
    /// The facade's name, usually its directory name such as `use-quant`.
    pub facade: String,
    /// The repository path.
    pub path: String,
}

impl GithubTarget {
    /// The target for the repository at `path`, named by its last component.
    pub fn from_facade_path(path: &str) -> (target: GithubTarget)
        ensures
            target.facade@ == facade_name_of(path@),
            target.path@ == path@,
    {
        let c = chars_of(path);
        let mut end: usize = c.len();
        let mut done = false;
        assert(c@.take(end as int) =~= path@);
        while end > 0 && !done
            invariant
                c@ == path@,
                end <= c.len(),
                trim_path_tail(path@) == trim_path_tail(c@.take(end as int)),
                done ==> trim_path_tail(c@.take(end as int)) == c@.take(end as int),
            decreases end + if done { 0int } else { 1int },
        {
            let ghost t = c@.take(end as int);
            assert(t.drop_last() =~= c@.take(end - 1));
            assert(t.last() == c@[end - 1]);
            if c[end - 1] == '/' {
                end = end - 1;
            } else if (end == 1 && c[0] == '.') || (end >= 2 && c[end - 1] == '.' && c[end - 2] == '/') {
                proof {
                    if end == 1 {
                        assert(t =~= seq!['.']);
                    } else {
                        assert(t[t.len() - 2] == c@[end - 2]);
                    }
                }
                end = end - 1;
            } else {
                proof {
                    if end == 1 {
                        assert(t[0] == c@[0]);
                        assert(!(t =~= seq!['.']));
                    } else {
                        assert(t[t.len() - 2] == c@[end - 2]);
                        assert(!(t =~= seq!['.']));
                    }
                }
                done = true;
            }
        }
        let ghost trimmed = c@.take(end as int);
        assert(trimmed == trim_path_tail(path@)) by {
            if end == 0 {
                assert(trimmed =~= Seq::<char>::empty());
            }
        }
        let mut start: usize = end;
        assert(c@.subrange(end as int, end as int) =~= Seq::<char>::empty());
        while start > 0 && c[start - 1] != '/'
            invariant
                c@ == path@,
                start <= end <= c.len(),
                trimmed == c@.take(end as int),
                last_segment(trimmed) == last_segment(c@.take(start as int)) + c@.subrange(start as int, end as int),
            decreases start,
        {
            let ghost t = c@.take(start as int);
            assert(t.drop_last() =~= c@.take(start - 1));
            assert(c@.subrange(start - 1, end as int) =~= seq![c@[start - 1]] + c@.subrange(start as int, end as int));
            assert(last_segment(t) == last_segment(c@.take(start - 1)).push(c@[start - 1]));
            assert(last_segment(c@.take(start - 1)).push(c@[start - 1]) + c@.subrange(start as int, end as int)
                =~= last_segment(c@.take(start - 1)) + c@.subrange(start - 1, end as int));
            start = start - 1;
        }
        assert(last_segment(c@.take(start as int)) =~= Seq::<char>::empty());
        assert(last_segment(trimmed) =~= c@.subrange(start as int, end as int));
        let mut name = String::new();
        let mut i: usize = start;
        assert(name@ =~= c@.subrange(start as int, start as int));
        while i < end
            invariant
                start <= i <= end <= c.len(),
                name@ == c@.subrange(start as int, i as int),
            decreases end - i,
        {
            push_char(&mut name, c[i]);
            assert(c@.subrange(start as int, i + 1) =~= c@.subrange(start as int, i as int).push(c@[i as int]));
            i = i + 1;
        }
        let is_parent = end - start == 2 && c[start] == '.' && c[start + 1] == '.';
        assert(is_parent == (name@ =~= seq!['.', '.'])) by {
            if name@.len() == 2 {
                assert(name@[0] == c@[start as int]);
                assert(name@[1] == c@[start + 1]);
            }
        }
        let facade = if end == start || is_parent {
            let dot = String::from_str(".");
            proof {
                reveal_strlit(".");
                assert(dot@ =~= seq!['.']);
            }
            dot
        } else {
            name
        };
        GithubTarget { facade, path: path.to_owned() }
    }
}

/// The status of one required `.github` file.
#[derive(Clone, Copy, Debug, PartialEq, Eq, Structural, Hash)]
pub enum GithubFileStatus {
    /// The file exists and matches the expected template.
    Matching,
    /// The file does not exist.
    Missing,
    /// The file exists but differs from the expected template.
    Stale,
    /// The path exists but is not a file.
    InvalidKind,
}

/// The label of a file status.
pub open spec fn github_status_label(s: GithubFileStatus) -> Seq<char> {
    match s {
        GithubFileStatus::Matching => "ok"@,
        GithubFileStatus::Missing => "missing"@,
        GithubFileStatus::Stale => "stale"@,
        GithubFileStatus::InvalidKind => "invalid-kind"@,
    }
}

impl GithubFileStatus {
    /// The user-facing label of the status.
    pub fn as_str(self) -> (label: &'static str)
        ensures
            label@ == github_status_label(self),
    {
        match self {
            GithubFileStatus::Matching => "ok",
            GithubFileStatus::Missing => "missing",
            GithubFileStatus::Stale => "stale",
            GithubFileStatus::InvalidKind => "invalid-kind",
        }
    }
}

/// The kind of a required `.github` file.
#[derive(Clone, Copy, Debug, PartialEq, Eq, Structural, Hash)]
pub enum GithubFileKind {
    Workflow,
    Dependabot,
    Funding,
    IssueTemplate,
    PullRequestTemplate,
}

/// The label of a file kind.
pub open spec fn github_kind_label(k: GithubFileKind) -> Seq<char> {
    match k {
        GithubFileKind::Workflow => "workflow"@,
        GithubFileKind::Dependabot => "dependabot"@,
        GithubFileKind::Funding => "funding"@,
        GithubFileKind::IssueTemplate => "issue-template"@,
        GithubFileKind::PullRequestTemplate => "pull-request-template"@,
    }
}

impl GithubFileKind {
    /// The user-facing label of the kind.
    pub fn as_str(self) -> (label: &'static str)
        ensures
            label@ == github_kind_label(self),
    {
        match self {
            GithubFileKind::Workflow => "workflow",
            GithubFileKind::Dependabot => "dependabot",
            GithubFileKind::Funding => "funding",
            GithubFileKind::IssueTemplate => "issue-template",
            GithubFileKind::PullRequestTemplate => "pull-request-template",
        }
    }
}

/// One required file of the `.github` policy.
#[derive(Clone, Copy, Debug)]
pub struct RequiredGithubFile {
    /// Repository-relative path.
    pub relative_path: &'static str,
    /// Expected file contents.
    pub contents: &'static str,
    pub kind: GithubFileKind,
}

/// The result of checking one required `.github` file.
#[derive(Clone, Debug)]
pub struct GithubFileCheck {
    /// Repository-relative path, such as `.github/workflows/ci.yml`.
    pub relative_path: String,
    pub status: GithubFileStatus,
    /// The content hash expected of a template-backed file.
    pub expected_hash: Option<String>,
    /// The content hash of the file where it exists and is readable.
    pub actual_hash: Option<String>,
}

impl GithubFileCheck {
    /// Whether the file matches the standard.
    pub fn is_ok(&self) -> (r: bool)
        ensures
            r == (self.status == GithubFileStatus::Matching),
    {
        self.status == GithubFileStatus::Matching
    }

    /// Whether the file is missing.
    pub fn is_missing(&self) -> (r: bool)
        ensures
            r == (self.status == GithubFileStatus::Missing),
    {
        self.status == GithubFileStatus::Missing
    }

    /// Whether the file exists but differs from its template.
    pub fn is_stale(&self) -> (r: bool)
        ensures
            r == (self.status == GithubFileStatus::Stale),
    {
        self.status == GithubFileStatus::Stale
    }

    /// Whether the path exists but is not a regular file.
    pub fn is_invalid_kind(&self) -> (r: bool)
        ensures
            r == (self.status == GithubFileStatus::InvalidKind),
    {
        self.status == GithubFileStatus::InvalidKind
    }
}

/// How many issues of `s` have severity `sev`.
pub open spec fn count_issue_severity(s: Seq<GithubIssue>, sev: GithubIssueSeverity) -> nat
    decreases s.len(),
{
    if s.len() == 0 {
        0
    } else {
        count_issue_severity(s.drop_last(), sev) + if s.last().severity == sev { 1nat } else { 0nat }
    }
}

/// How many checks of `s` have status `st`.
pub open spec fn count_check_status(s: Seq<GithubFileCheck>, st: GithubFileStatus) -> nat
    decreases s.len(),
{
    if s.len() == 0 {
        0
    } else {
        count_check_status(s.drop_last(), st) + if s.last().status == st { 1nat } else { 0nat }
    }
}

proof fn lemma_count_issue_bound(s: Seq<GithubIssue>, sev: GithubIssueSeverity)
    ensures
        count_issue_severity(s, sev) <= s.len(),
    decreases s.len(),
{
    if s.len() > 0 {
        lemma_count_issue_bound(s.drop_last(), sev);
    }
}

proof fn lemma_count_check_bound(s: Seq<GithubFileCheck>, st: GithubFileStatus)
    ensures
        count_check_status(s, st) <= s.len(),
    decreases s.len(),
{
    if s.len() > 0 {
        lemma_count_check_bound(s.drop_last(), st);
    }
}

/// The order in which issues are reported: by severity, then path, then code.
pub open spec fn issue_precedes(a: GithubIssue, b: GithubIssue) -> bool {
    ||| github_severity_rank(a.severity) < github_severity_rank(b.severity)
    ||| github_severity_rank(a.severity) == github_severity_rank(b.severity) && seq_lt(a.path@, b.path@)
    ||| github_severity_rank(a.severity) == github_severity_rank(b.severity) && a.path@ == b.path@
        && github_code_rank(a.code) < github_code_rank(b.code)
}

/// No issue of `s` is followed by one that precedes it.
pub open spec fn issues_sorted(s: Seq<GithubIssue>) -> bool {
    forall|i: int, j: int| 0 <= i < j < s.len() ==> !issue_precedes(#[trigger] s[j], #[trigger] s[i])
}

/// The order of issues is transitive.
pub proof fn lemma_issue_precedes_transitive(a: GithubIssue, b: GithubIssue, c: GithubIssue)
    requires
        issue_precedes(a, b),
        issue_precedes(b, c),
    ensures
        issue_precedes(a, c),
{
    if seq_lt(a.path@, b.path@) && seq_lt(b.path@, c.path@) {
        lemma_seq_lt_transitive(a.path@, b.path@, c.path@);
    }
}

/// No issue precedes itself.
pub proof fn lemma_issue_precedes_irreflexive(a: GithubIssue)
    ensures
        !issue_precedes(a, a),
{
    crate::text::lemma_seq_lt_irreflexive(a.path@);
}

/// Whether neither of two issues precedes the other.
pub open spec fn issue_tie(a: GithubIssue, b: GithubIssue) -> bool {
    !issue_precedes(a, b) && !issue_precedes(b, a)
}

proof fn lemma_issue_precedes_weak(a: GithubIssue, b: GithubIssue, c: GithubIssue)
    requires
        issue_precedes(a, b),
        !issue_precedes(c, b),
    ensures
        issue_precedes(a, c),
{
    crate::text::lemma_seq_lt_total(b.path@, c.path@);
    if seq_lt(a.path@, b.path@) && seq_lt(b.path@, c.path@) {
        lemma_seq_lt_transitive(a.path@, b.path@, c.path@);
    }
}

/// Whether `after` holds the issues of `before` in the order of `perm`,
/// issues that tie in the order in which they came.
pub open spec fn stable_issue_order(before: Seq<GithubIssue>, after: Seq<GithubIssue>, perm: Seq<int>) -> bool {
    &&& perm.len() == before.len()
    &&& after.len() == before.len()
    &&& forall|i: int| 0 <= i < perm.len() ==> 0 <= #[trigger] perm[i] < before.len() && after[i] == before[perm[i]]
    &&& forall|i: int, j: int| #![trigger perm[i], perm[j]] 0 <= i < j < perm.len() && issue_tie(after[i], after[j]) ==> perm[i] < perm[j]
}

fn issue_less(a: &GithubIssue, b: &GithubIssue) -> (r: bool)
    ensures
        r == issue_precedes(*a, *b),
{
    let ra = a.severity.rank();
    let rb = b.severity.rank();
    if ra != rb {
        return ra < rb;
    }
    if text_less(a.path.as_str(), b.path.as_str()) {
        return true;
    }
    if !str_eq(a.path.as_str(), b.path.as_str()) {
        return false;
    }
    a.code.rank() < b.code.rank()
}

/// The full `.github` check report of one facade repository.
#[derive(Clone, Debug)]
pub struct GithubCheckReport {
    pub target: GithubTarget,
    /// The repository path.
    pub facade_path: String,
    /// One check per required file.
    pub checks: Vec<GithubFileCheck>,
    pub issues: Vec<GithubIssue>,
}

impl GithubCheckReport {
    fn count_severity(&self, sev: GithubIssueSeverity) -> (n: usize)
        ensures
            n == count_issue_severity(self.issues@, sev),
    {
        let mut n: usize = 0;
        let mut i: usize = 0;
        while i < self.issues.len()
            invariant
                i <= self.issues.len(),
                n == count_issue_severity(self.issues@.take(i as int), sev),
            decreases self.issues.len() - i,
        {
            proof {
                assert(self.issues@.take(i + 1).drop_last() =~= self.issues@.take(i as int));
                lemma_count_issue_bound(self.issues@.take(i as int), sev);
            }
            if self.issues[i].severity == sev {
                n = n + 1;
            }
            i = i + 1;
        }
        assert(self.issues@.take(i as int) =~= self.issues@);
        n
    }

    fn count_status(&self, st: GithubFileStatus) -> (n: usize)
        ensures
            n == count_check_status(self.checks@, st),
    {
        let mut n: usize = 0;
        let mut i: usize = 0;
        while i < self.checks.len()
            invariant
                i <= self.checks.len(),
                n == count_check_status(self.checks@.take(i as int), st),
            decreases self.checks.len() - i,
        {
            proof {
                assert(self.checks@.take(i + 1).drop_last() =~= self.checks@.take(i as int));
                lemma_count_check_bound(self.checks@.take(i as int), st);
            }
            if self.checks[i].status == st {
                n = n + 1;
            }
            i = i + 1;
        }
        assert(self.checks@.take(i as int) =~= self.checks@);
        n
    }

    /// Whether the report has no error and no warning.
    pub fn is_clean(&self) -> (r: bool)
        ensures
            r == (count_issue_severity(self.issues@, GithubIssueSeverity::Error) == 0
                && count_issue_severity(self.issues@, GithubIssueSeverity::Warning) == 0),
    {
        self.error_count() == 0 && self.warning_count() == 0
    }

    /// Whether the report has an error.
    pub fn has_errors(&self) -> (r: bool)
        ensures
            r == (count_issue_severity(self.issues@, GithubIssueSeverity::Error) > 0),
    {
        self.error_count() > 0
    }

    /// The number of errors.
    pub fn error_count(&self) -> (n: usize)
        ensures
            n == count_issue_severity(self.issues@, GithubIssueSeverity::Error),
    {
        self.count_severity(GithubIssueSeverity::Error)
    }

    /// The number of warnings.
    pub fn warning_count(&self) -> (n: usize)
        ensures
            n == count_issue_severity(self.issues@, GithubIssueSeverity::Warning),
    {
        self.count_severity(GithubIssueSeverity::Warning)
    }

    /// The number of informational issues.
    pub fn info_count(&self) -> (n: usize)
        ensures
            n == count_issue_severity(self.issues@, GithubIssueSeverity::Info),
    {
        self.count_severity(GithubIssueSeverity::Info)
    }

    /// The number of files that match the standard.
    pub fn ok_check_count(&self) -> (n: usize)
        ensures
            n == count_check_status(self.checks@, GithubFileStatus::Matching),
    {
        self.count_status(GithubFileStatus::Matching)
    }

    /// The number of missing files.
    pub fn missing_check_count(&self) -> (n: usize)
        ensures
            n == count_check_status(self.checks@, GithubFileStatus::Missing),
    {
        self.count_status(GithubFileStatus::Missing)
    }

    /// The number of stale files.
    pub fn stale_check_count(&self) -> (n: usize)
        ensures
            n == count_check_status(self.checks@, GithubFileStatus::Stale),
    {
        self.count_status(GithubFileStatus::Stale)
    }

    /// The number of required paths that are not regular files.
    pub fn invalid_kind_check_count(&self) -> (n: usize)
        ensures
            n == count_check_status(self.checks@, GithubFileStatus::InvalidKind),
    {
        self.count_status(GithubFileStatus::InvalidKind)
    }

    /// Sorts the issues by severity, then path, then code, keeping the
    /// order of issues that tie.
    pub fn sort_issues(&mut self)
        ensures
            issues_sorted(final(self).issues@),
            final(self).issues@.to_multiset() == old(self).issues@.to_multiset(),
            exists|perm: Seq<int>| stable_issue_order(old(self).issues@, final(self).issues@, perm),
            final(self).checks@ == old(self).checks@,
            final(self).target == old(self).target,
            final(self).facade_path == old(self).facade_path,
    {
        let mut pending: Vec<GithubIssue> = Vec::new();
        std::mem::swap(&mut pending, &mut self.issues);
        let ghost original = pending@;
        let mut sorted: Vec<GithubIssue> = Vec::new();
        let ghost mut idx: Seq<int> = Seq::empty();
        let ghost mut taken: int = 0;
        while pending.len() > 0
            invariant
                issues_sorted(sorted@),
                sorted@.to_multiset().add(pending@.to_multiset()) == original.to_multiset(),
                0 <= taken <= original.len(),
                pending@ == original.skip(taken),
                idx.len() == sorted@.len(),
                sorted@.len() == taken,
                forall|i: int| 0 <= i < idx.len() ==> 0 <= #[trigger] idx[i] < taken && sorted@[i] == original[idx[i]],
                forall|i: int, j: int| #![trigger idx[i], idx[j]] 0 <= i < j < idx.len() && issue_tie(sorted@[i], sorted@[j]) ==> idx[i]
                    < idx[j],
            decreases pending.len(),
        {
            let ghost before = pending@;
            let item = pending.remove(0);
            proof {
                vstd::seq_lib::to_multiset_remove(before, 0);
                assert(item == original[taken]);
                assert(pending@ =~= original.skip(taken + 1));
            }
            let mut pos: usize = 0;
            let mut found = false;
            while pos < sorted.len() && !found
                invariant
                    pos <= sorted.len(),
                    forall|k: int| 0 <= k < pos ==> !issue_precedes(item, #[trigger] sorted@[k]),
                    found ==> pos < sorted.len() && issue_precedes(item, sorted@[pos as int]),
                decreases sorted.len() - pos + if found { 0int } else { 1int },
            {
                if issue_less(&item, &sorted[pos]) {
                    found = true;
                } else {
                    pos = pos + 1;
                }
            }
            let ghost old_sorted = sorted@;
            let ghost old_idx = idx;
            proof {
                assert forall|k: int| pos <= k < old_sorted.len() implies !issue_precedes(#[trigger] old_sorted[k], item) by {
                    if issue_precedes(old_sorted[k], item) {
                        lemma_issue_precedes_transitive(old_sorted[k], item, old_sorted[pos as int]);
                        if k > pos {
                            assert(!issue_precedes(old_sorted[k], old_sorted[pos as int]));
                        } else {
                            lemma_issue_precedes_irreflexive(old_sorted[k]);
                        }
                    }
                }
                vstd::seq_lib::to_multiset_insert(old_sorted, pos as int, item);
            }
            sorted.insert(pos, item);
            proof {
                idx = old_idx.insert(pos as int, taken);
                let s = sorted@;
                assert forall|i: int, j: int| 0 <= i < j < s.len() implies !issue_precedes(#[trigger] s[j], #[trigger] s[i]) by {
                    if j < pos {
                        assert(s[i] == old_sorted[i] && s[j] == old_sorted[j]);
                    } else if j == pos {
                        assert(s[i] == old_sorted[i]);
                    } else if i == pos {
                        assert(s[j] == old_sorted[j - 1]);
                    } else if i < pos {
                        assert(s[i] == old_sorted[i] && s[j] == old_sorted[j - 1]);
                    } else {
                        assert(s[i] == old_sorted[i - 1] && s[j] == old_sorted[j - 1]);
                    }
                }
                assert forall|i: int| 0 <= i < idx.len() implies 0 <= #[trigger] idx[i] < taken + 1 && s[i] == original[idx[i]] by {
                    if i < pos {
                        assert(idx[i] == old_idx[i] && s[i] == old_sorted[i]);
                    } else if i > pos {
                        assert(idx[i] == old_idx[i - 1] && s[i] == old_sorted[i - 1]);
                    }
                }
                assert forall|i: int, j: int| #![trigger idx[i], idx[j]] 0 <= i < j < idx.len() && issue_tie(s[i], s[j]) implies idx[i]
                    < idx[j] by {
                    if j < pos {
                        assert(s[i] == old_sorted[i] && s[j] == old_sorted[j]);
                        assert(idx[i] == old_idx[i] && idx[j] == old_idx[j]);
                    } else if j == pos {
                        assert(idx[i] == old_idx[i]);
                    } else if i == pos {
                        assert(s[j] == old_sorted[j - 1]);
                        if j - 1 > pos {
                            assert(!issue_precedes(old_sorted[j - 1], old_sorted[pos as int]));
                            lemma_issue_precedes_weak(item, old_sorted[pos as int], old_sorted[j - 1]);
                        }
                    } else if i < pos {
                        assert(s[i] == old_sorted[i] && s[j] == old_sorted[j - 1]);
                        assert(idx[i] == old_idx[i] && idx[j] == old_idx[j - 1]);
                    } else {
                        assert(s[i] == old_sorted[i - 1] && s[j] == old_sorted[j - 1]);
                        assert(idx[i] == old_idx[i - 1] && idx[j] == old_idx[j - 1]);
                    }
                }
                assert(sorted@.to_multiset() == old_sorted.to_multiset().insert(item));
                assert(before.to_multiset() == pending@.to_multiset().insert(item));
                assert(sorted@.to_multiset().add(pending@.to_multiset()) =~= old_sorted.to_multiset().add(before.to_multiset()));
                taken = taken + 1;
            }
        }
        proof {
            assert(pending@.to_multiset() =~= Multiset::<GithubIssue>::empty());
            assert(sorted@.to_multiset().add(Multiset::<GithubIssue>::empty()) =~= sorted@.to_multiset());
            vstd::seq_lib::to_multiset_len(sorted@);
            vstd::seq_lib::to_multiset_len(original);
            assert(stable_issue_order(original, sorted@, idx));
        }
        self.issues = sorted;
    }
}

} // verus!
