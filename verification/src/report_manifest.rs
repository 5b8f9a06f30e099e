//! The manifest sections of a facade report: the health of the Cargo
//! manifests, a summary of their issues, their inventory and their issues.

use vstd::prelude::*;
use vstd::multiset::Multiset;
use vstd::string::StringExecFns;

use crate::codes::{code_at, code_id, code_rank, lemma_code_rank_inverse, FacadeIssueCode};
use crate::facade_diagnostics::FacadeDiagnostics;
use crate::manifest_model::{
    capped, count_fn, count_severity, count_status, issue_views, manifest_kind_label, manifest_severity_label, sum_over,
    FacadeManifestReport, IssueView, ManifestCount, ManifestFileReport, ManifestIssueSeverity,
};
use crate::text::{decimal, lemma_seq_lt_irreflexive, lemma_seq_lt_total, lemma_seq_lt_transitive, push_decimal, push_str, seq_lt};

verus! {

broadcast use vstd::seq_lib::group_to_multiset_ensures;

/// The counts at the head of the manifest health section.
pub open spec fn health_head_text(r: FacadeManifestReport) -> Seq<char> {
    "## Cargo Manifest Health\n\n"@
        + "- Status: **"@ + count_status(capped(sum_over(r.manifests@, count_fn(ManifestCount::Errors))),
        capped(sum_over(r.manifests@, count_fn(ManifestCount::Warnings)))) + "**\n"@
        + "- Manifests inspected: `"@ + decimal(r.manifests@.len()) + "`\n"@
        + "- Issues: `"@ + decimal(capped(sum_over(r.manifests@, count_fn(ManifestCount::Issues)))) + "`\n"@
        + "- Errors: `"@ + decimal(capped(sum_over(r.manifests@, count_fn(ManifestCount::Errors)))) + "`\n"@
        + "- Warnings: `"@ + decimal(capped(sum_over(r.manifests@, count_fn(ManifestCount::Warnings)))) + "`\n"@
        + "- Invalid crates.io category slugs: `"@ + decimal(capped(sum_over(r.manifests@, count_fn(ManifestCount::InvalidCategories))))
        + "`\n\n"@
}

fn write_health_head(markdown: &mut String, r: &FacadeManifestReport)
    ensures
        final(markdown)@ == old(markdown)@ + health_head_text(*r),
{
    let mut s = String::from_str("## Cargo Manifest Health\n\n");
    push_str(&mut s, "- Status: **");
    push_str(&mut s, r.status());
    push_str(&mut s, "**\n");
    push_str(&mut s, "- Manifests inspected: `");
    push_decimal(&mut s, r.manifest_count());
    push_str(&mut s, "`\n");
    push_str(&mut s, "- Issues: `");
    push_decimal(&mut s, r.issue_count());
    push_str(&mut s, "`\n");
    push_str(&mut s, "- Errors: `");
    push_decimal(&mut s, r.error_count());
    push_str(&mut s, "`\n");
    push_str(&mut s, "- Warnings: `");
    push_decimal(&mut s, r.warning_count());
    push_str(&mut s, "`\n");
    push_str(&mut s, "- Invalid crates.io category slugs: `");
    push_decimal(&mut s, r.invalid_category_count());
    push_str(&mut s, "`\n\n");
    push_str(markdown, s.as_str());
}

/// The issues of all manifests, in order.
pub open spec fn all_issues(ms: Seq<ManifestFileReport>) -> Seq<IssueView>
    decreases ms.len(),
{
    if ms.len() == 0 {
        seq![]
    } else {
        all_issues(ms.drop_last()) + issue_views(ms.last().issues@)
    }
}

/// The severity and code of an issue.
pub open spec fn issue_key(i: IssueView) -> (ManifestIssueSeverity, FacadeIssueCode) {
    (i.severity, i.code)
}

/// The severity and code of each issue, in order.
pub open spec fn issue_keys(s: Seq<IssueView>) -> Seq<(ManifestIssueSeverity, FacadeIssueCode)> {
    s.map_values(|i: IssueView| issue_key(i))
}

/// One row of the manifest issue summary.
#[derive(Clone, Copy, Debug)]
pub struct SummaryRow {
    pub severity: ManifestIssueSeverity,
    pub code: FacadeIssueCode,
    pub count: usize,
}

/// The order of the summary rows: by count, largest first, then severity
/// label, then code in declaration order.
pub open spec fn summary_less(a: SummaryRow, b: SummaryRow) -> bool {
    let (sa, sb) = (manifest_severity_label(a.severity), manifest_severity_label(b.severity));
    ||| a.count > b.count
    ||| a.count == b.count && seq_lt(sa, sb)
    ||| a.count == b.count && sa == sb && code_rank(a.code) < code_rank(b.code)
}

/// Whether `rows` summarise the keys: each distinct severity and code once,
/// with the number of issues that have it, strictly in summary order.
pub open spec fn summarises(keys: Seq<(ManifestIssueSeverity, FacadeIssueCode)>, rows: Seq<SummaryRow>) -> bool {
    &&& rows_sorted(rows)
    &&& counts_ok(rows, keys)
    &&& covers(rows, keys)
}

/// The severity and code of a row.
pub open spec fn row_key(r: SummaryRow) -> (ManifestIssueSeverity, FacadeIssueCode) {
    (r.severity, r.code)
}

/// Whether each row counts the keys that equal its own, at least once.
pub open spec fn counts_ok(rows: Seq<SummaryRow>, keys: Seq<(ManifestIssueSeverity, FacadeIssueCode)>) -> bool {
    forall|i: int| 0 <= i < rows.len() ==> (#[trigger] rows[i]).count == keys.to_multiset().count(row_key(rows[i])) && rows[i].count > 0
}

/// Whether every key has a row.
pub open spec fn covers(rows: Seq<SummaryRow>, keys: Seq<(ManifestIssueSeverity, FacadeIssueCode)>) -> bool {
    forall|m: int| 0 <= m < keys.len() ==> exists|i: int| 0 <= i < rows.len() && row_key(#[trigger] rows[i]) == #[trigger] keys[m]
}

/// The summary order is a strict order, total on rows of distinct keys.
pub proof fn lemma_summary_less_order(a: SummaryRow, b: SummaryRow, c: SummaryRow)
    ensures
        !summary_less(a, a),
        summary_less(a, b) && summary_less(b, c) ==> summary_less(a, c),
        (a.severity != b.severity || a.code != b.code) ==> summary_less(a, b) || summary_less(b, a),
{
    let (sa, sb, sc) = (manifest_severity_label(a.severity), manifest_severity_label(b.severity), manifest_severity_label(c.severity));
    lemma_seq_lt_irreflexive(sa);
    if summary_less(a, b) && summary_less(b, c) {
        if seq_lt(sa, sb) && seq_lt(sb, sc) {
            lemma_seq_lt_transitive(sa, sb, sc);
        }
    }
    lemma_seq_lt_total(sa, sb);
    lemma_code_rank_inverse(a.code);
    lemma_code_rank_inverse(b.code);
    if a.severity != b.severity {
        assert(sa != sb) by {
            reveal_strlit("error");
            reveal_strlit("warning");
            assert(sa[0] != sb[0]);
        }
    }
}

fn row_less(a: &SummaryRow, b: &SummaryRow) -> (r: bool)
    ensures
        r == summary_less(*a, *b),
{
    if a.count != b.count {
        return a.count > b.count;
    }
    let (sa, sb) = (a.severity.as_str(), b.severity.as_str());
    proof {
        lemma_seq_lt_irreflexive(sa@);
    }
    if !crate::text::str_eq(sa, sb) {
        return crate::text::text_less(sa, sb);
    }
    a.code.rank() < b.code.rank()
}

/// The severity and code of every manifest issue, in order.
pub fn collect_keys(ms: &Vec<ManifestFileReport>) -> (keys: Vec<(ManifestIssueSeverity, FacadeIssueCode)>)
    ensures
        keys@ == issue_keys(all_issues(ms@)),
{
    let mut keys: Vec<(ManifestIssueSeverity, FacadeIssueCode)> = Vec::new();
    let mut i: usize = 0;
    while i < ms.len()
        invariant
            i <= ms.len(),
            keys@ == issue_keys(all_issues(ms@.take(i as int))),
        decreases ms.len() - i,
    {
        let issues = &ms[i].issues;
        let ghost head = keys@;
        let mut j: usize = 0;
        while j < issues.len()
            invariant
                j <= issues.len(),
                keys@ == head + issue_keys(issue_views(issues@.take(j as int))),
            decreases issues.len() - j,
        {
            keys.push((issues[j].severity, issues[j].code));
            assert(issue_keys(issue_views(issues@.take(j + 1))) =~= issue_keys(issue_views(issues@.take(j as int))).push(
                (issues@[j as int].severity, issues@[j as int].code)));
            j = j + 1;
        }
        proof {
            assert(issues@.take(j as int) =~= issues@);
            assert(ms@.take(i + 1).drop_last() =~= ms@.take(i as int));
            assert(all_issues(ms@.take(i + 1)) == all_issues(ms@.take(i as int)) + issue_views(ms@[i as int].issues@));
            assert(issue_keys(all_issues(ms@.take(i + 1))) =~= issue_keys(all_issues(ms@.take(i as int))) + issue_keys(
                issue_views(ms@[i as int].issues@)));
        }
        i = i + 1;
    }
    assert(ms@.take(i as int) =~= ms@);
    keys
}

/// Whether the rows are strictly in summary order.
pub open spec fn rows_sorted(rows: Seq<SummaryRow>) -> bool {
    forall|i: int, j: int| #![trigger rows[i], rows[j]] 0 <= i < j < rows.len() ==> summary_less(rows[i], rows[j])
}

/// Whether no two rows have the same severity and code.
pub open spec fn rows_distinct(rows: Seq<SummaryRow>) -> bool {
    forall|i: int, j: int| #![trigger rows[i], rows[j]] 0 <= i < rows.len() && 0 <= j < rows.len() && i != j ==> rows[i].severity
        != rows[j].severity || rows[i].code != rows[j].code
}

proof fn lemma_remove_keeps(rows: Seq<SummaryRow>, at: int)
    requires
        0 <= at < rows.len(),
        rows_sorted(rows),
        rows_distinct(rows),
    ensures
        rows_sorted(rows.remove(at)),
        rows_distinct(rows.remove(at)),
        forall|i: int| 0 <= i < rows.remove(at).len() ==> (#[trigger] rows.remove(at)[i]).severity != rows[at].severity
            || rows.remove(at)[i].code != rows[at].code,
{
    let r = rows.remove(at);
    assert forall|i: int| 0 <= i < r.len() implies r[i] == rows[if i < at { i } else { i + 1 }] by {}
    assert forall|i: int, j: int| #![trigger r[i], r[j]] 0 <= i < j < r.len() implies summary_less(r[i], r[j]) by {
        assert(r[i] == rows[if i < at { i } else { i + 1 }]);
        assert(r[j] == rows[if j < at { j } else { j + 1 }]);
    }
    assert forall|i: int, j: int| #![trigger r[i], r[j]] 0 <= i < r.len() && 0 <= j < r.len() && i != j implies r[i].severity
        != r[j].severity || r[i].code != r[j].code by {
        assert(r[i] == rows[if i < at { i } else { i + 1 }]);
        assert(r[j] == rows[if j < at { j } else { j + 1 }]);
    }
    assert forall|i: int| 0 <= i < r.len() implies (#[trigger] r[i]).severity != rows[at].severity || r[i].code != rows[at].code by {
        assert(r[i] == rows[if i < at { i } else { i + 1 }]);
    }
}

/// Inserts a row whose severity and code no row has, keeping the rows in
/// summary order.
fn insert_sorted(rows: &mut Vec<SummaryRow>, row: SummaryRow)
    requires
        rows_sorted(old(rows)@),
        rows_distinct(old(rows)@),
        forall|i: int| 0 <= i < old(rows)@.len() ==> (#[trigger] old(rows)@[i]).severity != row.severity || old(rows)@[i].code
            != row.code,
    ensures
        exists|pos: int| 0 <= pos <= old(rows)@.len() && final(rows)@ == old(rows)@.insert(pos, row),
        rows_sorted(final(rows)@),
        rows_distinct(final(rows)@),
{
    let ghost rest = rows@;
    let mut pos: usize = 0;
    let mut found = false;
    while pos < rows.len() && !found
        invariant
            pos <= rows.len(),
            rows@ == rest,
            forall|i: int| 0 <= i < pos ==> !summary_less(row, #[trigger] rows@[i]),
            found ==> pos < rows.len() && summary_less(row, rows@[pos as int]),
        decreases rows.len() - pos + if found { 0int } else { 1int },
    {
        if row_less(&row, &rows[pos]) {
            found = true;
        } else {
            pos = pos + 1;
        }
    }
    proof {
        assert forall|i: int| 0 <= i < pos implies summary_less(#[trigger] rest[i], row) by {
            lemma_summary_less_order(rest[i], row, rest[i]);
        }
        assert forall|i: int| pos <= i < rest.len() implies summary_less(row, #[trigger] rest[i]) by {
            lemma_summary_less_order(row, rest[i], row);
            if i > pos {
                lemma_summary_less_order(row, rest[pos as int], rest[i]);
            }
        }
    }
    rows.insert(pos, row);
    proof {
        let s = rows@;
        assert forall|i: int, j: int| #![trigger s[i], s[j]] 0 <= i < j < s.len() implies summary_less(s[i], s[j]) by {
            if j < pos {
                assert(s[i] == rest[i] && s[j] == rest[j]);
            } else if j == pos {
                assert(s[i] == rest[i]);
            } else if i == pos {
                assert(s[j] == rest[j - 1]);
            } else if i < pos {
                assert(s[i] == rest[i] && s[j] == rest[j - 1]);
                lemma_summary_less_order(s[i], row, s[j]);
            } else {
                assert(s[i] == rest[i - 1] && s[j] == rest[j - 1]);
            }
        }
        assert forall|i: int, j: int| #![trigger s[i], s[j]] 0 <= i < s.len() && 0 <= j < s.len() && i != j implies s[i].severity
            != s[j].severity || s[i].code != s[j].code by {
            let a = if i < pos { i } else if i == pos { -1 } else { i - 1 };
            let b = if j < pos { j } else if j == pos { -1 } else { j - 1 };
            if a >= 0 {
                assert(s[i] == rest[a]);
            }
            if b >= 0 {
                assert(s[j] == rest[b]);
            }
        }
    }
}

proof fn lemma_summary_step(
    old_rows: Seq<SummaryRow>,
    prefix: Seq<(ManifestIssueSeverity, FacadeIssueCode)>,
    key: (ManifestIssueSeverity, FacadeIssueCode),
    hit: bool,
    at: int,
    rest: Seq<SummaryRow>,
    row: SummaryRow,
    s: Seq<SummaryRow>,
    pos: int,
)
    requires
        rows_distinct(old_rows),
        counts_ok(old_rows, prefix),
        covers(old_rows, prefix),
        hit ==> 0 <= at < old_rows.len() && row_key(old_rows[at]) == key && rest == old_rows.remove(at) && row_key(row) == key
            && row.count == old_rows[at].count + 1,
        !hit ==> rest == old_rows && (forall|i: int| 0 <= i < old_rows.len() ==> row_key(#[trigger] old_rows[i]) != key)
            && row_key(row) == key && row.count == 1,
        0 <= pos <= rest.len(),
        s == rest.insert(pos, row),
    ensures
        counts_ok(s, prefix.push(key)),
        covers(s, prefix.push(key)),
{
    let next = prefix.push(key);
    assert(next.to_multiset() =~= prefix.to_multiset().insert(key));
    if !hit {
        assert(!prefix.contains(key)) by {
            if prefix.contains(key) {
                let m = choose|m: int| 0 <= m < prefix.len() && prefix[m] == key;
                let i = choose|i: int| 0 <= i < old_rows.len() && row_key(#[trigger] old_rows[i]) == prefix[m];
            }
        }
        vstd::seq_lib::to_multiset_contains(prefix, key);
    }
    assert forall|i: int| 0 <= i < rest.len() implies (#[trigger] rest[i]) == old_rows[if hit && i >= at { i + 1 } else { i }] by {}
    assert forall|i: int| 0 <= i < s.len() implies (#[trigger] s[i]).count == next.to_multiset().count(row_key(s[i])) && s[i].count > 0 by {
        if i != pos {
            let w = if i < pos { i } else { i - 1 };
            assert(s[i] == rest[w]);
            let o = if hit && w >= at { w + 1 } else { w };
            assert(rest[w] == old_rows[o]);
            if hit {
                assert(o != at);
                assert(row_key(old_rows[o]) != row_key(old_rows[at]));
            }
        }
    }
    assert forall|m: int| 0 <= m < next.len() implies exists|i: int| 0 <= i < s.len() && row_key(#[trigger] s[i]) == #[trigger] next[m] by {
        if m == prefix.len() {
            assert(s[pos] == row);
        } else {
            assert(next[m] == prefix[m]);
            let i0 = choose|i: int| 0 <= i < old_rows.len() && row_key(#[trigger] old_rows[i]) == prefix[m];
            if hit && i0 == at {
                assert(s[pos] == row);
            } else {
                let w = if hit && i0 > at { i0 - 1 } else { i0 };
                assert(rest[w] == old_rows[i0]);
                if w < pos {
                    assert(s[w] == rest[w]);
                } else {
                    assert(s[w + 1] == rest[w]);
                }
            }
        }
    }
}

/// The summary rows of the keys: each distinct severity and code with the
/// number of issues that have it, in summary order.
pub fn summarise(keys: &Vec<(ManifestIssueSeverity, FacadeIssueCode)>) -> (rows: Vec<SummaryRow>)
    ensures
        summarises(keys@, rows@),
{
    let mut rows: Vec<SummaryRow> = Vec::new();
    let mut k: usize = 0;
    while k < keys.len()
        invariant
            k <= keys.len(),
            rows_sorted(rows@),
            rows_distinct(rows@),
            counts_ok(rows@, keys@.take(k as int)),
            covers(rows@, keys@.take(k as int)),
        decreases keys.len() - k,
    {
        let key = keys[k];
        let ghost prefix = keys@.take(k as int);
        assert(keys@.take(k + 1) =~= prefix.push(key));
        proof {
            vstd::seq_lib::to_multiset_len(prefix);
            lemma_key_count_le(prefix, key);
        }
        let mut at: usize = 0;
        let mut hit = false;
        while at < rows.len() && !hit
            invariant
                at <= rows.len(),
                forall|i: int| 0 <= i < at ==> row_key(#[trigger] rows@[i]) != key,
                hit ==> at < rows.len() && row_key(rows@[at as int]) == key,
            decreases rows.len() - at + if hit { 0int } else { 1int },
        {
            if rows[at].severity == key.0 && rows[at].code == key.1 {
                hit = true;
            } else {
                at = at + 1;
            }
        }
        let ghost old_rows = rows@;
        let row = if hit {
            proof {
                lemma_remove_keeps(old_rows, at as int);
                assert(old_rows[at as int].count <= prefix.len());
            }
            let r = rows.remove(at);
            SummaryRow { severity: r.severity, code: r.code, count: r.count + 1 }
        } else {
            SummaryRow { severity: key.0, code: key.1, count: 1 }
        };
        let ghost rest = rows@;
        insert_sorted(&mut rows, row);
        proof {
            let pos = choose|pos: int| 0 <= pos <= rest.len() && rows@ == rest.insert(pos, row);
            lemma_summary_step(old_rows, prefix, key, hit, at as int, rest, row, rows@, pos);
        }
        k = k + 1;
    }
    assert(keys@.take(k as int) =~= keys@);
    rows
}

proof fn lemma_key_count_le(s: Seq<(ManifestIssueSeverity, FacadeIssueCode)>, x: (ManifestIssueSeverity, FacadeIssueCode))
    ensures
        s.to_multiset().count(x) <= s.len(),
    decreases s.len(),
{
    if s.len() > 0 {
        assert(s =~= s.drop_last().push(s.last()));
        lemma_key_count_le(s.drop_last(), x);
    }
}

/// The rows of the manifest issue summary table.
pub open spec fn summary_rows_text(rows: Seq<SummaryRow>) -> Seq<char>
    decreases rows.len(),
{
    if rows.len() == 0 {
        seq![]
    } else {
        summary_rows_text(rows.drop_last()) + "| `"@ + manifest_severity_label(rows.last().severity) + "` | `"@
            + code_id(rows.last().code) + "` | "@ + decimal(rows.last().count as nat) + " |\n"@
    }
}

/// The manifest issue summary table, or nothing without issues.
pub open spec fn summary_table_text(rows: Seq<SummaryRow>) -> Seq<char> {
    if rows.len() == 0 {
        seq![]
    } else {
        "### Manifest Issue Summary\n\n"@ + "| Severity | Code | Count |\n"@ + "|---|---|---:|\n"@ + summary_rows_text(rows) + "\n"@
    }
}

pub fn write_summary_table(markdown: &mut String, rows: &Vec<SummaryRow>)
    ensures
        final(markdown)@ == old(markdown)@ + summary_table_text(rows@),
{
    if rows.len() == 0 {
        assert(old(markdown)@ + Seq::<char>::empty() =~= old(markdown)@);
        return;
    }
    let mut s = String::from_str("### Manifest Issue Summary\n\n");
    push_str(&mut s, "| Severity | Code | Count |\n");
    push_str(&mut s, "|---|---|---:|\n");
    let ghost head = s@;
    let mut i: usize = 0;
    while i < rows.len()
        invariant
            i <= rows.len(),
            s@ == head + summary_rows_text(rows@.take(i as int)),
        decreases rows.len() - i,
    {
        let mut line = String::from_str("| `");
        push_str(&mut line, rows[i].severity.as_str());
        push_str(&mut line, "` | `");
        push_str(&mut line, rows[i].code.as_str());
        push_str(&mut line, "` | ");
        push_decimal(&mut line, rows[i].count);
        push_str(&mut line, " |\n");
        push_str(&mut s, line.as_str());
        proof {
            assert(rows@.take(i + 1).drop_last() =~= rows@.take(i as int));
            assert(s@ =~= head + (summary_rows_text(rows@.take(i as int)) + line@));
        }
        i = i + 1;
    }
    push_str(&mut s, "\n");
    assert(rows@.take(i as int) =~= rows@);
    push_str(markdown, s.as_str());
}

/// The package name shown for a manifest: `<none>` where it has none.
pub open spec fn shown_package(p: Option<String>) -> Seq<char> {
    match p {
        Some(n) => n@,
        None => "<none>"@,
    }
}

/// The status label of one manifest report.
pub open spec fn file_status(m: ManifestFileReport) -> Seq<char> {
    count_status(count_severity(issue_views(m.issues@), ManifestIssueSeverity::Error),
        count_severity(issue_views(m.issues@), ManifestIssueSeverity::Warning))
}

/// The inventory row of one manifest.
pub open spec fn inventory_row(m: ManifestFileReport) -> Seq<char> {
    "| `"@ + manifest_kind_label(m.kind) + "` | `"@ + shown_package(m.package_name) + "` | "@ + file_status(m) + " | "@
        + decimal(m.issues@.len()) + " | `"@ + m.path@ + "` |\n"@
}

/// The inventory rows of the manifests.
pub open spec fn inventory_rows(ms: Seq<ManifestFileReport>) -> Seq<char>
    decreases ms.len(),
{
    if ms.len() == 0 {
        seq![]
    } else {
        inventory_rows(ms.drop_last()) + inventory_row(ms.last())
    }
}

/// The manifest inventory table.
pub open spec fn inventory_text(ms: Seq<ManifestFileReport>) -> Seq<char> {
    "### Manifest Inventory\n\n"@ + "| Kind | Package | Status | Issues | Manifest |\n"@ + "|---|---|---:|---:|---|\n"@
        + inventory_rows(ms) + "\n"@
}

fn write_inventory(markdown: &mut String, ms: &Vec<ManifestFileReport>)
    ensures
        final(markdown)@ == old(markdown)@ + inventory_text(ms@),
{
    let mut s = String::from_str("### Manifest Inventory\n\n");
    push_str(&mut s, "| Kind | Package | Status | Issues | Manifest |\n");
    push_str(&mut s, "|---|---|---:|---:|---|\n");
    let ghost head = s@;
    let mut i: usize = 0;
    while i < ms.len()
        invariant
            i <= ms.len(),
            s@ == head + inventory_rows(ms@.take(i as int)),
        decreases ms.len() - i,
    {
        let m = &ms[i];
        let mut line = String::from_str("| `");
        push_str(&mut line, m.kind.as_str());
        push_str(&mut line, "` | `");
        match &m.package_name {
            Some(p) => push_str(&mut line, p.as_str()),
            None => push_str(&mut line, "<none>"),
        }
        push_str(&mut line, "` | ");
        push_str(&mut line, m.status());
        push_str(&mut line, " | ");
        push_decimal(&mut line, m.issue_count());
        push_str(&mut line, " | `");
        push_str(&mut line, m.path.as_str());
        push_str(&mut line, "` |\n");
        assert(line@ == inventory_row(*m));
        proof {
            assert(ms@.take(i + 1).drop_last() =~= ms@.take(i as int));
            assert(ms@.take(i + 1).last() == *m);
        }
        push_str(&mut s, line.as_str());
        assert(s@ =~= head + (inventory_rows(ms@.take(i as int)) + inventory_row(*m)));
        i = i + 1;
    }
    push_str(&mut s, "\n");
    assert(ms@.take(i as int) =~= ms@);
    push_str(markdown, s.as_str());
}

/// The items of a manifest's issues.
pub open spec fn issue_items(s: Seq<IssueView>) -> Seq<char>
    decreases s.len(),
{
    if s.len() == 0 {
        seq![]
    } else {
        issue_items(s.drop_last()) + "  - **"@ + manifest_severity_label(s.last().severity) + "** `"@ + code_id(s.last().code)
            + "`: "@ + s.last().message + "\n"@
    }
}

/// The block of one manifest with issues.
pub open spec fn manifest_block(m: ManifestFileReport) -> Seq<char> {
    "#### `"@ + m.path@ + "`\n\n"@ + "- Kind: `"@ + manifest_kind_label(m.kind) + "`\n"@ + "- Status: **"@ + file_status(m) + "**\n"@
        + (match m.package_name {
        Some(p) => "- Package: `"@ + p@ + "`\n"@,
        None => seq![],
    }) + "- Issues:\n"@ + issue_items(issue_views(m.issues@)) + "\n"@
}

/// The blocks of the manifests that have issues, in order.
pub open spec fn manifest_blocks(ms: Seq<ManifestFileReport>) -> Seq<char>
    decreases ms.len(),
{
    if ms.len() == 0 {
        seq![]
    } else {
        manifest_blocks(ms.drop_last()) + if ms.last().issues@.len() == 0 {
            seq![]
        } else {
            manifest_block(ms.last())
        }
    }
}

/// The list of manifest issues, and a note where no child crate manifest
/// was discovered.
pub open spec fn manifest_issues_text(d: FacadeDiagnostics) -> Seq<char> {
    let none_note = if d.facade.crate_manifest_paths@.len() == 0 {
        "- No child crate manifests were discovered.\n\n"@
    } else {
        seq![]
    };
    if capped(sum_over(d.manifest.manifests@, count_fn(ManifestCount::Issues))) == 0 {
        none_note
    } else {
        "### Manifest Issues\n\n"@ + manifest_blocks(d.manifest.manifests@) + none_note
    }
}

fn write_manifest_block(markdown: &mut String, m: &ManifestFileReport)
    ensures
        final(markdown)@ == old(markdown)@ + manifest_block(*m),
{
    let mut s = String::from_str("#### `");
    push_str(&mut s, m.path.as_str());
    push_str(&mut s, "`\n\n");
    push_str(&mut s, "- Kind: `");
    push_str(&mut s, m.kind.as_str());
    push_str(&mut s, "`\n");
    push_str(&mut s, "- Status: **");
    push_str(&mut s, m.status());
    push_str(&mut s, "**\n");
    match &m.package_name {
        Some(p) => {
            let mut line = String::from_str("- Package: `");
            push_str(&mut line, p.as_str());
            push_str(&mut line, "`\n");
            push_str(&mut s, line.as_str());
        },
        None => {
            assert(s@ + Seq::<char>::empty() =~= s@);
        },
    }
    push_str(&mut s, "- Issues:\n");
    let ghost head = s@;
    let ghost iv = issue_views(m.issues@);
    let mut j: usize = 0;
    while j < m.issues.len()
        invariant
            j <= m.issues.len(),
            iv == issue_views(m.issues@),
            s@ == head + issue_items(iv.take(j as int)),
        decreases m.issues.len() - j,
    {
        let issue = &m.issues[j];
        let mut line = String::from_str("  - **");
        push_str(&mut line, issue.severity.as_str());
        push_str(&mut line, "** `");
        push_str(&mut line, issue.code.as_str());
        push_str(&mut line, "`: ");
        push_str(&mut line, issue.message.as_str());
        push_str(&mut line, "\n");
        proof {
            assert(iv.take(j + 1).drop_last() =~= iv.take(j as int));
            assert(iv.take(j + 1).last() == iv[j as int]);
        }
        push_str(&mut s, line.as_str());
        assert(s@ =~= head + issue_items(iv.take(j + 1)));
        j = j + 1;
    }
    push_str(&mut s, "\n");
    assert(iv.take(j as int) =~= iv);
    push_str(markdown, s.as_str());
}

fn write_manifest_issues(markdown: &mut String, d: &FacadeDiagnostics)
    ensures
        final(markdown)@ == old(markdown)@ + manifest_issues_text(*d),
{
    let r = &d.manifest;
    if r.issue_count() == 0 {
        if d.facade.crate_count() == 0 {
            push_str(markdown, "- No child crate manifests were discovered.\n\n");
        } else {
            assert(old(markdown)@ + Seq::<char>::empty() =~= old(markdown)@);
        }
        return;
    }
    let mut s = String::from_str("### Manifest Issues\n\n");
    let ghost head = s@;
    let mut i: usize = 0;
    while i < r.manifests.len()
        invariant
            i <= r.manifests.len(),
            s@ == head + manifest_blocks(r.manifests@.take(i as int)),
        decreases r.manifests.len() - i,
    {
        let ghost before = s@;
        proof {
            assert(r.manifests@.take(i + 1).drop_last() =~= r.manifests@.take(i as int));
            assert(r.manifests@.take(i + 1).last() == r.manifests@[i as int]);
        }
        if r.manifests[i].issues.len() > 0 {
            write_manifest_block(&mut s, &r.manifests[i]);
        } else {
            assert(before + Seq::<char>::empty() =~= before);
        }
        assert(s@ =~= head + manifest_blocks(r.manifests@.take(i + 1)));
        i = i + 1;
    }
    assert(r.manifests@.take(i as int) =~= r.manifests@);
    if d.facade.crate_count() == 0 {
        push_str(&mut s, "- No child crate manifests were discovered.\n\n");
    } else {
        assert(s@ + Seq::<char>::empty() =~= s@);
    }
    push_str(markdown, s.as_str());
}

/// The section on the health of the manifests, with `rows` the summary of
/// their issues.
pub open spec fn manifest_health_text(d: FacadeDiagnostics, rows: Seq<SummaryRow>) -> Seq<char> {
    health_head_text(d.manifest) + summary_table_text(rows) + inventory_text(d.manifest.manifests@) + manifest_issues_text(d)
}

/// Appends the section on the health of the manifests.
pub fn write_manifest_health(markdown: &mut String, d: &FacadeDiagnostics)
    ensures
        exists|rows: Seq<SummaryRow>| {
            &&& summarises(issue_keys(all_issues(d.manifest.manifests@)), rows)
            &&& final(markdown)@ == old(markdown)@ + manifest_health_text(*d, rows)
        },
{
    let mut s = String::new();
    write_health_head(&mut s, &d.manifest);
    let keys = collect_keys(&d.manifest.manifests);
    let rows = summarise(&keys);
    write_summary_table(&mut s, &rows);
    write_inventory(&mut s, &d.manifest.manifests);
    write_manifest_issues(&mut s, d);
    assert(s@ =~= manifest_health_text(*d, rows@));
    push_str(markdown, s.as_str());
}

proof fn lemma_sorted_rows_same(a: Seq<SummaryRow>, b: Seq<SummaryRow>)
    requires
        rows_sorted(a),
        rows_sorted(b),
        forall|x: SummaryRow| a.contains(x) <==> b.contains(x),
    ensures
        a == b,
    decreases a.len() + b.len(),
{
    if a.len() == 0 {
        if b.len() > 0 {
            assert(b.contains(b[0]));
        }
        assert(a =~= b);
    } else if b.len() == 0 {
        assert(a.contains(a[0]));
    } else {
        assert(a.contains(a[0]));
        assert(b.contains(b[0]));
        let j = choose|j: int| 0 <= j < b.len() && b[j] == a[0];
        let k = choose|k: int| 0 <= k < a.len() && a[k] == b[0];
        if a[0] != b[0] {
            assert(summary_less(b[0], b[j]));
            assert(summary_less(a[0], a[k]));
            lemma_summary_less_order(a[0], b[0], a[0]);
        }
        let (a1, b1) = (a.drop_first(), b.drop_first());
        assert forall|x: SummaryRow| a1.contains(x) <==> b1.contains(x) by {
            if a1.contains(x) {
                let i = choose|i: int| 0 <= i < a1.len() && a1[i] == x;
                assert(a[i + 1] == x && a.contains(x));
                assert(summary_less(a[0], a[i + 1]));
                let m = choose|m: int| 0 <= m < b.len() && b[m] == x;
                if m == 0 {
                    lemma_summary_less_order(x, x, x);
                }
                assert(b1[m - 1] == x);
            }
            if b1.contains(x) {
                let i = choose|i: int| 0 <= i < b1.len() && b1[i] == x;
                assert(b[i + 1] == x && b.contains(x));
                assert(summary_less(b[0], b[i + 1]));
                let m = choose|m: int| 0 <= m < a.len() && a[m] == x;
                if m == 0 {
                    lemma_summary_less_order(x, x, x);
                }
                assert(a1[m - 1] == x);
            }
        }
        lemma_sorted_rows_same(a1, b1);
        assert(a =~= seq![a[0]] + a1);
        assert(b =~= seq![b[0]] + b1);
    }
}

/// The manifest issue summary is determined by the issues: any two
/// summaries of the same keys are the same rows.
pub proof fn lemma_summarises_unique(keys: Seq<(ManifestIssueSeverity, FacadeIssueCode)>, a: Seq<SummaryRow>, b: Seq<SummaryRow>)
    requires
        summarises(keys, a),
        summarises(keys, b),
    ensures
        a == b,
{
    assert forall|x: SummaryRow| a.contains(x) <==> b.contains(x) by {
        if a.contains(x) {
            let i = choose|i: int| 0 <= i < a.len() && a[i] == x;
            assert(a[i].count == keys.to_multiset().count(row_key(x)));
            vstd::seq_lib::to_multiset_contains(keys, row_key(x));
            let m = choose|m: int| 0 <= m < keys.len() && keys[m] == row_key(x);
            let w = choose|w: int| 0 <= w < b.len() && row_key(#[trigger] b[w]) == keys[m];
            assert(b[w].count == keys.to_multiset().count(row_key(b[w])));
            assert(b[w] == x);
        }
        if b.contains(x) {
            let i = choose|i: int| 0 <= i < b.len() && b[i] == x;
            assert(b[i].count == keys.to_multiset().count(row_key(x)));
            vstd::seq_lib::to_multiset_contains(keys, row_key(x));
            let m = choose|m: int| 0 <= m < keys.len() && keys[m] == row_key(x);
            let w = choose|w: int| 0 <= w < a.len() && row_key(#[trigger] a[w]) == keys[m];
            assert(a[w].count == keys.to_multiset().count(row_key(a[w])));
            assert(a[w] == x);
        }
    }
    lemma_sorted_rows_same(a, b);
}

} // verus!
