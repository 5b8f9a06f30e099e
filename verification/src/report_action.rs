//! The action plan of a facade report: what to address, the issues by
//! group and by repairable type, and the issues that come first.

use vstd::prelude::*;
use vstd::multiset::Multiset;
use vstd::string::StringExecFns;

use crate::codes::{bucket_label, code_bucket, code_id};
use crate::facade_diagnostics::FacadeDiagnostics;
use crate::facade_issue::{facade_issue_views, severity_label, severity_rank, FacadeIssue, FacadeIssueView};
use crate::facade_report::{diag_errors, diag_fixable, diag_warnings};
use crate::markdown::{tallies, tally, TallyRow};
use crate::text::{
    decimal, lemma_seq_lt_irreflexive, lemma_seq_lt_total, lemma_seq_lt_transitive, push_decimal, push_str, seq_lt, str_eq,
    text_less,
};

verus! {

broadcast use vstd::seq_lib::group_to_multiset_ensures;

/// The bucket labels of the issues, in order.
pub open spec fn bucket_labels(s: Seq<FacadeIssueView>) -> Seq<Seq<char>> {
    s.map_values(|i: FacadeIssueView| bucket_label(code_bucket(i.code)))
}

/// The code names of the issues that have a repair, in order.
pub open spec fn fixable_code_labels(s: Seq<FacadeIssueView>) -> Seq<Seq<char>>
    decreases s.len(),
{
    if s.len() == 0 {
        seq![]
    } else {
        fixable_code_labels(s.drop_last()) + if s.last().fix is Some {
            seq![code_id(s.last().code)]
        } else {
            seq![]
        }
    }
}

/// The rows of a tally as `| label | count |`, or with the label in code
/// format where `code`.
pub open spec fn tally_rows_text(rows: Seq<TallyRow>, code: bool) -> Seq<char>
    decreases rows.len(),
{
    if rows.len() == 0 {
        seq![]
    } else {
        tally_rows_text(rows.drop_last(), code) + (if code { "| `"@ } else { "| "@ }) + rows.last().label@
            + (if code { "` | "@ } else { " | "@ }) + decimal(rows.last().count as nat) + " |\n"@
    }
}

/// A table of a tally under `title`, or nothing for an empty tally.
pub open spec fn tally_table(title: Seq<char>, header: Seq<char>, rows: Seq<TallyRow>, code: bool) -> Seq<char> {
    if rows.len() == 0 {
        seq![]
    } else {
        title + header + "|---|---:|\n"@ + tally_rows_text(rows, code) + "\n"@
    }
}

fn write_tally_table(markdown: &mut String, title: &str, header: &str, rows: &Vec<TallyRow>, code: bool)
    ensures
        final(markdown)@ == old(markdown)@ + tally_table(title@, header@, rows@, code),
{
    if rows.len() == 0 {
        assert(old(markdown)@ + Seq::<char>::empty() =~= old(markdown)@);
        return;
    }
    let mut s = String::from_str(title);
    push_str(&mut s, header);
    push_str(&mut s, "|---|---:|\n");
    let ghost head = s@;
    let mut i: usize = 0;
    while i < rows.len()
        invariant
            i <= rows.len(),
            s@ == head + tally_rows_text(rows@.take(i as int), code),
        decreases rows.len() - i,
    {
        let mut line = String::from_str(if code { "| `" } else { "| " });
        push_str(&mut line, rows[i].label.as_str());
        push_str(&mut line, if code { "` | " } else { " | " });
        push_decimal(&mut line, rows[i].count);
        push_str(&mut line, " |\n");
        push_str(&mut s, line.as_str());
        proof {
            let t = rows@.take(i + 1);
            assert(t.drop_last() =~= rows@.take(i as int));
            assert(s@ =~= head + (tally_rows_text(rows@.take(i as int), code) + line@));
        }
        i = i + 1;
    }
    push_str(&mut s, "\n");
    assert(rows@.take(i as int) =~= rows@);
    push_str(markdown, s.as_str());
}

/// Whether issue `a` comes before issue `b` in the priority list: by
/// severity, then bucket label, code name and message.
pub open spec fn priority_less(a: FacadeIssueView, b: FacadeIssueView) -> bool {
    let (ba, bb) = (bucket_label(code_bucket(a.code)), bucket_label(code_bucket(b.code)));
    let (ca, cb) = (code_id(a.code), code_id(b.code));
    ||| severity_rank(a.severity) < severity_rank(b.severity)
    ||| severity_rank(a.severity) == severity_rank(b.severity) && seq_lt(ba, bb)
    ||| severity_rank(a.severity) == severity_rank(b.severity) && ba == bb && seq_lt(ca, cb)
    ||| severity_rank(a.severity) == severity_rank(b.severity) && ba == bb && ca == cb && seq_lt(a.message, b.message)
}

/// Whether no issue of `s` is followed by one that comes before it.
pub open spec fn priority_sorted(s: Seq<FacadeIssueView>) -> bool {
    forall|i: int, j: int| #![trigger s[i], s[j]] 0 <= i < j < s.len() ==> !priority_less(s[j], s[i])
}

/// The priority order is a strict order.
pub proof fn lemma_priority_less_order(a: FacadeIssueView, b: FacadeIssueView, c: FacadeIssueView)
    ensures
        !priority_less(a, a),
        priority_less(a, b) && priority_less(b, c) ==> priority_less(a, c),
{
    let (ba, bb, bc) = (bucket_label(code_bucket(a.code)), bucket_label(code_bucket(b.code)), bucket_label(code_bucket(c.code)));
    let (ca, cb, cc) = (code_id(a.code), code_id(b.code), code_id(c.code));
    lemma_seq_lt_irreflexive(ba);
    lemma_seq_lt_irreflexive(ca);
    lemma_seq_lt_irreflexive(a.message);
    if priority_less(a, b) && priority_less(b, c) {
        if seq_lt(ba, bb) && seq_lt(bb, bc) {
            lemma_seq_lt_transitive(ba, bb, bc);
        }
        if seq_lt(ca, cb) && seq_lt(cb, cc) {
            lemma_seq_lt_transitive(ca, cb, cc);
        }
        if seq_lt(a.message, b.message) && seq_lt(b.message, c.message) {
            lemma_seq_lt_transitive(a.message, b.message, c.message);
        }
    }
}

/// Whether neither of two issues comes before the other.
pub open spec fn priority_tie(a: FacadeIssueView, b: FacadeIssueView) -> bool {
    !priority_less(a, b) && !priority_less(b, a)
}

/// What comes before an issue also comes before anything that does not
/// come before that issue.
proof fn lemma_priority_less_weak(a: FacadeIssueView, b: FacadeIssueView, c: FacadeIssueView)
    requires
        priority_less(a, b),
        !priority_less(c, b),
    ensures
        priority_less(a, c),
{
    let (ba, bb, bc) = (bucket_label(code_bucket(a.code)), bucket_label(code_bucket(b.code)), bucket_label(code_bucket(c.code)));
    let (ca, cb, cc) = (code_id(a.code), code_id(b.code), code_id(c.code));
    lemma_seq_lt_total(bb, bc);
    lemma_seq_lt_total(cb, cc);
    lemma_seq_lt_total(b.message, c.message);
    if seq_lt(ba, bb) && seq_lt(bb, bc) {
        lemma_seq_lt_transitive(ba, bb, bc);
    }
    if seq_lt(ca, cb) && seq_lt(cb, cc) {
        lemma_seq_lt_transitive(ca, cb, cc);
    }
    if seq_lt(a.message, b.message) && seq_lt(b.message, c.message) {
        lemma_seq_lt_transitive(a.message, b.message, c.message);
    }
}

/// Whether `order` lists the indices of all the issues in priority order,
/// issues that tie in the order in which they come.
pub open spec fn stable_priority(issues: Seq<FacadeIssue>, order: Seq<usize>) -> bool {
    &&& order.len() == issues.len()
    &&& forall|k: int| 0 <= k < order.len() ==> order[k] < issues.len()
    &&& priority_sorted(order.map_values(|k: usize| issues[k as int]@))
    &&& forall|i: int, j: int| #![trigger order[i], order[j]] 0 <= i < j < order.len() && priority_tie(
        issues[order[i] as int]@,
        issues[order[j] as int]@,
    ) ==> order[i] < order[j]
}

fn issue_priority_less(a: &FacadeIssue, b: &FacadeIssue) -> (r: bool)
    ensures
        r == priority_less(a@, b@),
{
    let (ra, rb) = (a.severity.sort_rank(), b.severity.sort_rank());
    if ra != rb {
        return ra < rb;
    }
    let (ba, bb) = (a.code.bucket().as_str(), b.code.bucket().as_str());
    proof {
        lemma_seq_lt_irreflexive(ba@);
    }
    if !str_eq(ba, bb) {
        return text_less(ba, bb);
    }
    let (ca, cb) = (a.code.as_str(), b.code.as_str());
    proof {
        lemma_seq_lt_irreflexive(ca@);
    }
    if !str_eq(ca, cb) {
        return text_less(ca, cb);
    }
    text_less(a.message.as_str(), b.message.as_str())
}

/// The indices of the issues in priority order, ties kept in issue order.
pub fn priority_order(issues: &Vec<FacadeIssue>) -> (order: Vec<usize>)
    ensures
        order@.len() == issues@.len(),
        forall|k: int| 0 <= k < order@.len() ==> order@[k] < issues@.len(),
        order@.map_values(|k: usize| issues@[k as int]@).to_multiset() == facade_issue_views(issues@).to_multiset(),
        stable_priority(issues@, order@),
{
    let ghost vs = facade_issue_views(issues@);
    let mut order: Vec<usize> = Vec::new();
    let mut n: usize = 0;
    while n < issues.len()
        invariant
            n <= issues.len(),
            vs == facade_issue_views(issues@),
            order@.len() == n,
            forall|k: int| 0 <= k < order@.len() ==> order@[k] < n,
            order@.map_values(|k: usize| issues@[k as int]@).to_multiset() == vs.take(n as int).to_multiset(),
            priority_sorted(order@.map_values(|k: usize| issues@[k as int]@)),
            forall|i: int, j: int| #![trigger order@[i], order@[j]] 0 <= i < j < order@.len() && priority_tie(
                issues@[order@[i] as int]@,
                issues@[order@[j] as int]@,
            ) ==> order@[i] < order@[j],
        decreases issues.len() - n,
    {
        let item = &issues[n];
        let ghost old_order = order@;
        let ghost old_views = old_order.map_values(|k: usize| issues@[k as int]@);
        let mut pos: usize = 0;
        let mut found = false;
        while pos < order.len() && !found
            invariant
                pos <= order.len(),
                order@ == old_order,
                n < issues.len(),
                forall|k: int| 0 <= k < order@.len() ==> order@[k] < n,
                old_views == old_order.map_values(|k: usize| issues@[k as int]@),
                forall|k: int| 0 <= k < pos ==> !priority_less(item@, #[trigger] old_views[k]),
                found ==> pos < order.len() && priority_less(item@, old_views[pos as int]),
            decreases order.len() - pos + if found { 0int } else { 1int },
        {
            let other = order[pos];
            if issue_priority_less(item, &issues[other]) {
                found = true;
            } else {
                pos = pos + 1;
            }
        }
        proof {
            assert forall|k: int| pos <= k < old_views.len() implies !priority_less(#[trigger] old_views[k], item@) by {
                if priority_less(old_views[k], item@) {
                    lemma_priority_less_order(old_views[k], item@, old_views[pos as int]);
                    if k > pos {
                        assert(!priority_less(old_views[k], old_views[pos as int]));
                    } else {
                        lemma_priority_less_order(old_views[k], old_views[k], old_views[k]);
                    }
                }
            }
            vstd::seq_lib::to_multiset_insert(old_views, pos as int, item@);
        }
        order.insert(pos, n);
        proof {
            let s = order@.map_values(|k: usize| issues@[k as int]@);
            assert(s =~= old_views.insert(pos as int, item@));
            assert forall|i: int, j: int| #![trigger s[i], s[j]] 0 <= i < j < s.len() implies !priority_less(s[j], s[i]) by {
                if j < pos {
                    assert(s[i] == old_views[i] && s[j] == old_views[j]);
                } else if j == pos {
                    assert(s[i] == old_views[i]);
                } else if i == pos {
                    assert(s[j] == old_views[j - 1]);
                } else if i < pos {
                    assert(s[i] == old_views[i] && s[j] == old_views[j - 1]);
                } else {
                    assert(s[i] == old_views[i - 1] && s[j] == old_views[j - 1]);
                }
            }
            assert(vs.take(n + 1) =~= vs.take(n as int).push(item@));
            assert(s.to_multiset() == old_views.to_multiset().insert(item@));
            let o = order@;
            assert forall|i: int, j: int| #![trigger o[i], o[j]] 0 <= i < j < o.len() && priority_tie(
                issues@[o[i] as int]@,
                issues@[o[j] as int]@,
            ) implies o[i] < o[j] by {
                if j < pos {
                    assert(o[i] == old_order[i] && o[j] == old_order[j]);
                } else if j == pos {
                    assert(o[i] == old_order[i]);
                } else if i == pos {
                    assert(o[j] == old_order[j - 1]);
                    assert(found);
                    assert(old_views[j - 1] == issues@[o[j] as int]@);
                    if j - 1 > pos {
                        assert(!priority_less(old_views[j - 1], old_views[pos as int]));
                        lemma_priority_less_weak(item@, old_views[pos as int], old_views[j - 1]);
                    }
                } else if i < pos {
                    assert(o[i] == old_order[i] && o[j] == old_order[j - 1]);
                } else {
                    assert(o[i] == old_order[i - 1] && o[j] == old_order[j - 1]);
                }
            }
        }
        n = n + 1;
    }
    assert(vs.take(n as int) =~= vs);
    order
}

/// The path of an issue as shown in the priority list: `-` where it has
/// none.
pub open spec fn shown_path(p: Option<Seq<char>>) -> Seq<char> {
    match p {
        Some(x) => x,
        None => "-"@,
    }
}

/// The row of one issue in the priority list.
pub open spec fn priority_row(i: FacadeIssueView) -> Seq<char> {
    "| "@ + severity_label(i.severity) + " | `"@ + code_id(i.code) + "` | `"@ + shown_path(i.path) + "` | "@ + i.message + " |\n"@
}

/// The rows of the issues, in order.
pub open spec fn priority_rows(s: Seq<FacadeIssueView>) -> Seq<char>
    decreases s.len(),
{
    if s.len() == 0 {
        seq![]
    } else {
        priority_rows(s.drop_last()) + priority_row(s.last())
    }
}

/// The priority list of issues sorted into `sorted`: the first 20, and a
/// note of how many there are where there are more.
pub open spec fn priority_text(sorted: Seq<FacadeIssueView>) -> Seq<char> {
    "### Priority Issues\n\n"@ + "| Severity | Code | Path | Message |\n"@ + "|---|---|---|---|\n"@
        + priority_rows(if sorted.len() > 20 { sorted.take(20) } else { sorted }) + (if sorted.len() > 20 {
        "\nShowing 20 of "@ + decimal(sorted.len()) + " issue(s). See later sections for full details.\n"@
    } else {
        seq![]
    }) + "\n"@
}

/// The head of an action plan for issues: the counts, and a reminder to fix
/// errors first where there are any.
pub open spec fn plan_head_text(d: FacadeDiagnostics) -> Seq<char> {
    let n = d.issues@.len();
    let f = diag_fixable(d);
    "- Address "@ + decimal(n) + " issue(s): "@ + decimal(diag_errors(d)) + " error(s), "@ + decimal(diag_warnings(d))
        + " warning(s).\n"@ + "- Fixable by RustUse: `"@ + decimal(f) + "` issue(s).\n"@ + "- Manual review required: `"@
        + decimal(if f <= n { (n - f) as nat } else { 0 }) + "` issue(s).\n"@ + (if diag_errors(d) > 0 {
        "- Fix errors before addressing warnings.\n"@
    } else {
        seq![]
    }) + "\n"@
}

/// The action plan of a facade, with `groups` the tally of its issues'
/// bucket labels, `fixable` that of its repairable issues' code names and
/// `sorted` its issues in priority order.
pub open spec fn action_plan_text(d: FacadeDiagnostics, groups: Seq<TallyRow>, fixable: Seq<TallyRow>, sorted: Seq<FacadeIssueView>) -> Seq<char> {
    if d.issues@.len() == 0 {
        "## Action Plan\n\n"@ + "- No required action.\n\n"@
    } else {
        "## Action Plan\n\n"@ + plan_head_text(d) + tally_table("### Issue Groups\n\n"@, "| Group | Issues |\n"@, groups, false)
            + tally_table("### Fixable Issue Types\n\n"@, "| Code | Count |\n"@, fixable, true) + priority_text(sorted)
    }
}

/// Whether `sorted` holds the issues in priority order, issues that tie in
/// the order in which they come.
pub open spec fn in_priority_order(issues: Seq<FacadeIssue>, sorted: Seq<FacadeIssueView>) -> bool {
    exists|order: Seq<usize>| stable_priority(issues, order) && sorted == order.map_values(|k: usize| issues[k as int]@)
}

fn write_plan_head(markdown: &mut String, d: &FacadeDiagnostics)
    ensures
        final(markdown)@ == old(markdown)@ + plan_head_text(*d),
{
    let n = d.issue_count();
    let f = d.fixable_count();
    let errors = d.error_count();
    let mut s = String::from_str("- Address ");
    push_decimal(&mut s, n);
    push_str(&mut s, " issue(s): ");
    push_decimal(&mut s, errors);
    push_str(&mut s, " error(s), ");
    push_decimal(&mut s, d.warning_count());
    push_str(&mut s, " warning(s).\n");
    push_str(&mut s, "- Fixable by RustUse: `");
    push_decimal(&mut s, f);
    push_str(&mut s, "` issue(s).\n");
    push_str(&mut s, "- Manual review required: `");
    push_decimal(&mut s, if f <= n { n - f } else { 0 });
    push_str(&mut s, "` issue(s).\n");
    if errors > 0 {
        push_str(&mut s, "- Fix errors before addressing warnings.\n");
    } else {
        assert(s@ + Seq::<char>::empty() =~= s@);
    }
    push_str(&mut s, "\n");
    push_str(markdown, s.as_str());
}

fn write_priority_issues(markdown: &mut String, issues: &Vec<FacadeIssue>) -> (sorted: Ghost<Seq<FacadeIssueView>>)
    ensures
        in_priority_order(issues@, sorted@),
        final(markdown)@ == old(markdown)@ + priority_text(sorted@),
{
    let order = priority_order(issues);
    let ghost sorted = order@.map_values(|k: usize| issues@[k as int]@);
    let mut s = String::from_str("### Priority Issues\n\n");
    push_str(&mut s, "| Severity | Code | Path | Message |\n");
    push_str(&mut s, "|---|---|---|---|\n");
    let ghost head = s@;
    let shown: usize = if order.len() > 20 { 20 } else { order.len() };
    let ghost taken = if sorted.len() > 20 { sorted.take(20) } else { sorted };
    assert(taken =~= sorted.take(shown as int));
    let mut i: usize = 0;
    while i < shown
        invariant
            i <= shown <= order@.len(),
            sorted == order@.map_values(|k: usize| issues@[k as int]@),
            forall|k: int| 0 <= k < order@.len() ==> order@[k] < issues@.len(),
            s@ == head + priority_rows(sorted.take(i as int)),
        decreases shown - i,
    {
        let issue = &issues[order[i]];
        assert(issue@ == sorted[i as int]);
        let mut line = String::from_str("| ");
        push_str(&mut line, issue.severity.as_str());
        push_str(&mut line, " | `");
        push_str(&mut line, issue.code.as_str());
        push_str(&mut line, "` | `");
        match &issue.path {
            Some(p) => push_str(&mut line, p.as_str()),
            None => push_str(&mut line, "-"),
        }
        push_str(&mut line, "` | ");
        push_str(&mut line, issue.message.as_str());
        push_str(&mut line, " |\n");
        assert(line@ =~= priority_row(issue@));
        push_str(&mut s, line.as_str());
        proof {
            assert(sorted.take(i + 1).drop_last() =~= sorted.take(i as int));
            assert(s@ =~= head + (priority_rows(sorted.take(i as int)) + priority_row(sorted[i as int])));
        }
        i = i + 1;
    }
    if order.len() > 20 {
        push_str(&mut s, "\nShowing 20 of ");
        push_decimal(&mut s, order.len());
        push_str(&mut s, " issue(s). See later sections for full details.\n");
        assert(s@ =~= head + priority_rows(taken) + ("\nShowing 20 of "@ + decimal(sorted.len())
            + " issue(s). See later sections for full details.\n"@));
    } else {
        assert(s@ =~= head + priority_rows(taken) + Seq::<char>::empty());
    }
    push_str(&mut s, "\n");
    assert(s@ =~= priority_text(sorted));
    push_str(markdown, s.as_str());
    Ghost(sorted)
}

/// The bucket labels of the issues, in order.
fn issue_bucket_labels(issues: &Vec<FacadeIssue>) -> (labels: Vec<String>)
    ensures
        crate::text::views(labels@) == bucket_labels(facade_issue_views(issues@)),
{
    let mut labels: Vec<String> = Vec::new();
    let mut i: usize = 0;
    while i < issues.len()
        invariant
            i <= issues.len(),
            crate::text::views(labels@) == bucket_labels(facade_issue_views(issues@.take(i as int))),
        decreases issues.len() - i,
    {
        let ghost prev = facade_issue_views(issues@.take(i as int));
        assert(facade_issue_views(issues@.take(i + 1)) =~= prev.push(issues@[i as int]@));
        labels.push(String::from_str(issues[i].code.bucket().as_str()));
        assert(bucket_labels(prev.push(issues@[i as int]@)) =~= bucket_labels(prev).push(bucket_label(code_bucket(issues@[i as int].code))));
        assert(crate::text::views(labels@) =~= bucket_labels(facade_issue_views(issues@.take(i + 1))));
        i = i + 1;
    }
    assert(issues@.take(i as int) =~= issues@);
    labels
}

/// The code names of the issues that have a repair, in order.
fn fixable_codes(issues: &Vec<FacadeIssue>) -> (labels: Vec<String>)
    ensures
        crate::text::views(labels@) == fixable_code_labels(facade_issue_views(issues@)),
{
    let mut labels: Vec<String> = Vec::new();
    let mut i: usize = 0;
    while i < issues.len()
        invariant
            i <= issues.len(),
            crate::text::views(labels@) == fixable_code_labels(facade_issue_views(issues@.take(i as int))),
        decreases issues.len() - i,
    {
        assert(facade_issue_views(issues@.take(i + 1)).drop_last() =~= facade_issue_views(issues@.take(i as int)));
        if issues[i].fix.is_some() {
            labels.push(String::from_str(issues[i].code.as_str()));
        }
        assert(crate::text::views(labels@) =~= fixable_code_labels(facade_issue_views(issues@.take(i + 1))));
        i = i + 1;
    }
    assert(issues@.take(i as int) =~= issues@);
    labels
}

/// Appends the action plan of the report.
pub fn write_action_plan(markdown: &mut String, d: &FacadeDiagnostics)
    ensures
        exists|groups: Seq<TallyRow>, fixable: Seq<TallyRow>, sorted: Seq<FacadeIssueView>| {
            &&& tallies(bucket_labels(facade_issue_views(d.issues@)), groups)
            &&& tallies(fixable_code_labels(facade_issue_views(d.issues@)), fixable)
            &&& in_priority_order(d.issues@, sorted)
            &&& final(markdown)@ == old(markdown)@ + action_plan_text(*d, groups, fixable, sorted)
        },
{
    let mut s = String::from_str("## Action Plan\n\n");
    let labels = issue_bucket_labels(&d.issues);
    let groups = tally(&labels);
    let codes = fixable_codes(&d.issues);
    let fixable = tally(&codes);
    if d.issues.len() == 0 {
        let order = priority_order(&d.issues);
        let ghost sorted = order@.map_values(|k: usize| d.issues@[k as int]@);
        push_str(&mut s, "- No required action.\n\n");
        push_str(markdown, s.as_str());
        assert(final(markdown)@ == old(markdown)@ + action_plan_text(*d, groups@, fixable@, sorted));
        return;
    }
    write_plan_head(&mut s, d);
    write_tally_table(&mut s, "### Issue Groups\n\n", "| Group | Issues |\n", &groups, false);
    write_tally_table(&mut s, "### Fixable Issue Types\n\n", "| Code | Count |\n", &fixable, true);
    let sorted = write_priority_issues(&mut s, &d.issues);
    push_str(markdown, s.as_str());
    assert(final(markdown)@ == old(markdown)@ + action_plan_text(*d, groups@, fixable@, sorted@));
}

/// Whether two issues have the same priority: severity, bucket label, code
/// name and message.
pub open spec fn same_priority(a: FacadeIssueView, b: FacadeIssueView) -> bool {
    &&& severity_rank(a.severity) == severity_rank(b.severity)
    &&& bucket_label(code_bucket(a.code)) == bucket_label(code_bucket(b.code))
    &&& code_id(a.code) == code_id(b.code)
    &&& a.message == b.message
}

proof fn lemma_tie_is_same_priority(a: FacadeIssueView, b: FacadeIssueView)
    ensures
        priority_tie(a, b) == same_priority(a, b),
{
    let (ba, bb) = (bucket_label(code_bucket(a.code)), bucket_label(code_bucket(b.code)));
    let (ca, cb) = (code_id(a.code), code_id(b.code));
    lemma_seq_lt_total(ba, bb);
    lemma_seq_lt_total(ca, cb);
    lemma_seq_lt_total(a.message, b.message);
    lemma_seq_lt_irreflexive(ba);
    lemma_seq_lt_irreflexive(ca);
    lemma_seq_lt_irreflexive(a.message);
}

/// The order of issue indices in a stable priority list: by priority, and
/// by index among issues of the same priority.
pub open spec fn index_before(issues: Seq<FacadeIssue>, i: usize, j: usize) -> bool {
    priority_less(issues[i as int]@, issues[j as int]@) || (priority_tie(issues[i as int]@, issues[j as int]@) && i < j)
}

proof fn lemma_index_before_order(issues: Seq<FacadeIssue>, i: usize, j: usize, k: usize)
    ensures
        !index_before(issues, i, i),
        index_before(issues, i, j) && index_before(issues, j, k) ==> index_before(issues, i, k),
        i != j ==> index_before(issues, i, j) || index_before(issues, j, i),
{
    let (a, b, c) = (issues[i as int]@, issues[j as int]@, issues[k as int]@);
    lemma_priority_less_order(a, a, a);
    lemma_tie_is_same_priority(a, b);
    lemma_tie_is_same_priority(b, c);
    lemma_tie_is_same_priority(a, c);
    if priority_less(a, b) && priority_less(b, c) {
        lemma_priority_less_order(a, b, c);
    }
    if priority_less(a, b) && priority_tie(b, c) {
        lemma_priority_less_weak(a, b, c);
    }
}

proof fn lemma_indices_cover(o: Seq<usize>, n: nat)
    requires
        o.len() == n,
        forall|k: int| 0 <= k < o.len() ==> o[k] < n,
        forall|i: int, j: int| 0 <= i < o.len() && 0 <= j < o.len() && i != j ==> o[i] != o[j],
    ensures
        forall|m: usize| m < n ==> o.contains(m),
{
    let oi = o.map_values(|k: usize| k as int);
    assert(oi.no_duplicates());
    oi.unique_seq_to_set();
    vstd::set_lib::lemma_int_range(0, n as int);
    assert(oi.to_set().subset_of(vstd::set_lib::set_int_range(0, n as int)));
    vstd::seq_lib::seq_to_set_is_finite(oi);
    vstd::set_lib::lemma_subset_equality(oi.to_set(), vstd::set_lib::set_int_range(0, n as int));
    assert forall|m: usize| m < n implies o.contains(m) by {
        assert(vstd::set_lib::set_int_range(0, n as int).contains(m as int));
        assert(oi.to_set().contains(m as int));
        let k = choose|k: int| 0 <= k < oi.len() && oi[k] == m as int;
        assert(o[k] == m);
    }
}

proof fn lemma_index_orders_equal(issues: Seq<FacadeIssue>, a: Seq<usize>, b: Seq<usize>)
    requires
        forall|i: int, j: int| #![trigger a[i], a[j]] 0 <= i < j < a.len() ==> index_before(issues, a[i], a[j]),
        forall|i: int, j: int| #![trigger b[i], b[j]] 0 <= i < j < b.len() ==> index_before(issues, b[i], b[j]),
        forall|x: usize| a.contains(x) <==> b.contains(x),
    ensures
        a == b,
    decreases a.len() + b.len(),
{
    if a.len() == 0 {
        if b.len() > 0 {
            assert(b.contains(b[0]));
        }
        assert(a =~= b);
    } else if b.len() == 0 {
        assert(a.contains(a[0]));
    } else {
        assert(a.contains(a[0]));
        assert(b.contains(b[0]));
        let j = choose|j: int| 0 <= j < b.len() && b[j] == a[0];
        let k = choose|k: int| 0 <= k < a.len() && a[k] == b[0];
        if a[0] != b[0] {
            assert(index_before(issues, b[0], b[j]));
            assert(index_before(issues, a[0], a[k]));
            lemma_index_before_order(issues, a[0], b[0], a[0]);
        }
        let (a1, b1) = (a.drop_first(), b.drop_first());
        assert forall|x: usize| a1.contains(x) <==> b1.contains(x) by {
            if a1.contains(x) {
                let i = choose|i: int| 0 <= i < a1.len() && a1[i] == x;
                assert(a[i + 1] == x && a.contains(x));
                assert(index_before(issues, a[0], a[i + 1]));
                let m = choose|m: int| 0 <= m < b.len() && b[m] == x;
                if m == 0 {
                    lemma_index_before_order(issues, x, x, x);
                }
                assert(b1[m - 1] == x);
            }
            if b1.contains(x) {
                let i = choose|i: int| 0 <= i < b1.len() && b1[i] == x;
                assert(b[i + 1] == x && b.contains(x));
                assert(index_before(issues, b[0], b[i + 1]));
                let m = choose|m: int| 0 <= m < a.len() && a[m] == x;
                if m == 0 {
                    lemma_index_before_order(issues, x, x, x);
                }
                assert(a1[m - 1] == x);
            }
        }
        lemma_index_orders_equal(issues, a1, b1);
        assert(a =~= seq![a[0]] + a1);
        assert(b =~= seq![b[0]] + b1);
    }
}

proof fn lemma_stable_order_before(issues: Seq<FacadeIssue>, o: Seq<usize>)
    requires
        stable_priority(issues, o),
    ensures
        forall|i: int, j: int| #![trigger o[i], o[j]] 0 <= i < j < o.len() ==> index_before(issues, o[i], o[j]),
        forall|m: usize| m < issues.len() ==> o.contains(m),
        forall|x: usize| o.contains(x) ==> x < issues.len(),
{
    let v = o.map_values(|k: usize| issues[k as int]@);
    assert forall|i: int, j: int| #![trigger o[i], o[j]] 0 <= i < j < o.len() implies index_before(issues, o[i], o[j]) by {
        assert(v[i] == issues[o[i] as int]@ && v[j] == issues[o[j] as int]@);
        assert(!priority_less(v[j], v[i]));
    }
    assert forall|i: int, j: int| 0 <= i < o.len() && 0 <= j < o.len() && i != j implies o[i] != o[j] by {
        if i < j {
            lemma_index_before_order(issues, o[i], o[j], o[j]);
        } else {
            lemma_index_before_order(issues, o[j], o[i], o[i]);
        }
    }
    lemma_indices_cover(o, issues.len());
}

/// The priority list of a facade's issues is determined by them: there is
/// one way to list them in priority order with ties in their order.
pub proof fn lemma_priority_order_unique(issues: Seq<FacadeIssue>, s1: Seq<FacadeIssueView>, s2: Seq<FacadeIssueView>)
    requires
        in_priority_order(issues, s1),
        in_priority_order(issues, s2),
    ensures
        s1 == s2,
{
    let o1 = choose|o: Seq<usize>| stable_priority(issues, o) && s1 == o.map_values(|k: usize| issues[k as int]@);
    let o2 = choose|o: Seq<usize>| stable_priority(issues, o) && s2 == o.map_values(|k: usize| issues[k as int]@);
    lemma_stable_order_before(issues, o1);
    lemma_stable_order_before(issues, o2);
    lemma_index_orders_equal(issues, o1, o2);
}

} // verus!
