//! The manifest health of a fleet: issue and shape summaries over all its
//! facades, the summary by facade and the facades with most issues.

use vstd::prelude::*;
use vstd::multiset::Multiset;
use vstd::string::StringExecFns;

use crate::codes::{bucket_label, bucket_rank, code_bucket, FacadeIssueBucket};
use crate::fleet_model::{fleet_manifest_total, fleet_sum, FleetDiagnostics};
use crate::fleet_report::{by_facade_text, report_counts, report_status, write_manifest_summary_by_facade};
use crate::manifest_model::{capped, FacadeManifestReport, ManifestCount, ManifestIssueSeverity};
use crate::codes::FacadeIssueCode;
use crate::report_manifest::{
    all_issues, collect_keys, issue_keys, summarise, summarises, summary_table_text, write_summary_table, SummaryRow,
};
use crate::text::{decimal, lemma_seq_lt_irreflexive, lemma_seq_lt_transitive, push_decimal, push_str, seq_lt, str_eq, text_less};

verus! {

broadcast use vstd::seq_lib::group_to_multiset_ensures;

/// The severity and code of every manifest issue of the fleet, facade by
/// facade.
pub open spec fn fleet_keys(rs: Seq<FacadeManifestReport>) -> Seq<(ManifestIssueSeverity, FacadeIssueCode)>
    decreases rs.len(),
{
    if rs.len() == 0 {
        seq![]
    } else {
        fleet_keys(rs.drop_last()) + issue_keys(all_issues(rs.last().manifests@))
    }
}

fn collect_fleet_keys(rs: &Vec<FacadeManifestReport>) -> (keys: Vec<(ManifestIssueSeverity, FacadeIssueCode)>)
    ensures
        keys@ == fleet_keys(rs@),
{
    let mut keys: Vec<(ManifestIssueSeverity, FacadeIssueCode)> = Vec::new();
    let mut i: usize = 0;
    while i < rs.len()
        invariant
            i <= rs.len(),
            keys@ == fleet_keys(rs@.take(i as int)),
        decreases rs.len() - i,
    {
        let mut more = collect_keys(&rs[i].manifests);
        let ghost before = keys@;
        keys.append(&mut more);
        assert(rs@.take(i + 1).drop_last() =~= rs@.take(i as int));
        i = i + 1;
    }
    assert(rs@.take(i as int) =~= rs@);
    keys
}

/// The buckets of the codes of the keys, in order.
pub open spec fn key_buckets(keys: Seq<(ManifestIssueSeverity, FacadeIssueCode)>) -> Seq<FacadeIssueBucket> {
    keys.map_values(|k: (ManifestIssueSeverity, FacadeIssueCode)| code_bucket(k.1))
}

/// One row of the shape summary.
#[derive(Clone, Copy, Debug)]
pub struct BucketRow {
    pub bucket: FacadeIssueBucket,
    pub count: usize,
}

/// The order of the shape summary: by count, largest first, then bucket in
/// declaration order.
pub open spec fn bucket_less(a: BucketRow, b: BucketRow) -> bool {
    a.count > b.count || (a.count == b.count && bucket_rank(a.bucket) < bucket_rank(b.bucket))
}

/// Whether `rows` summarise the buckets: each distinct bucket once, with
/// the number of issues in it, strictly in shape summary order.
pub open spec fn bucket_summarises(bs: Seq<FacadeIssueBucket>, rows: Seq<BucketRow>) -> bool {
    &&& forall|i: int, j: int| #![trigger rows[i], rows[j]] 0 <= i < j < rows.len() ==> bucket_less(rows[i], rows[j])
    &&& forall|i: int| 0 <= i < rows.len() ==> (#[trigger] rows[i]).count == bs.to_multiset().count(rows[i].bucket)
        && rows[i].count > 0
    &&& forall|m: int| 0 <= m < bs.len() ==> exists|i: int| 0 <= i < rows.len() && (#[trigger] rows[i]).bucket == #[trigger] bs[m]
}

/// The buckets, in declaration order.
pub open spec fn all_buckets() -> Seq<FacadeIssueBucket> {
    seq![
        FacadeIssueBucket::WorkspaceShape,
        FacadeIssueBucket::FacadeWiring,
        FacadeIssueBucket::PackageShape,
        FacadeIssueBucket::CategoryMetadata,
        FacadeIssueBucket::RepositoryShape,
        FacadeIssueBucket::ToolingSurface,
        FacadeIssueBucket::ReleaseSurface,
    ]
}

proof fn lemma_all_buckets(b: FacadeIssueBucket)
    ensures
        all_buckets()[bucket_rank(b) as int] == b,
        bucket_rank(b) < 7,
        forall|i: int| 0 <= i < 7 ==> bucket_rank(#[trigger] all_buckets()[i]) == i,
{
}

/// How many keys have a code in bucket `b`.
fn bucket_count(keys: &Vec<(ManifestIssueSeverity, FacadeIssueCode)>, b: FacadeIssueBucket) -> (n: usize)
    ensures
        n == key_buckets(keys@).to_multiset().count(b),
{
    let ghost bs = key_buckets(keys@);
    let mut n: usize = 0;
    let mut i: usize = 0;
    while i < keys.len()
        invariant
            i <= keys.len(),
            bs == key_buckets(keys@),
            n == bs.take(i as int).to_multiset().count(b),
            n <= i,
        decreases keys.len() - i,
    {
        assert(bs.take(i + 1) =~= bs.take(i as int).push(bs[i as int]));
        if keys[i].1.bucket() == b {
            n = n + 1;
        }
        i = i + 1;
    }
    assert(bs.take(i as int) =~= bs);
    n
}

/// Inserts a row whose bucket comes after those of all rows, keeping the
/// rows in shape summary order.
fn insert_bucket_row(rows: &mut Vec<BucketRow>, row: BucketRow)
    requires
        forall|i: int, j: int| #![trigger old(rows)@[i], old(rows)@[j]] 0 <= i < j < old(rows)@.len() ==> bucket_less(old(rows)@[i], old(rows)@[j]),
        forall|i: int| 0 <= i < old(rows)@.len() ==> bucket_rank((#[trigger] old(rows)@[i]).bucket) < bucket_rank(row.bucket),
    ensures
        exists|pos: int| 0 <= pos <= old(rows)@.len() && final(rows)@ == old(rows)@.insert(pos, row),
        forall|i: int, j: int| #![trigger final(rows)@[i], final(rows)@[j]] 0 <= i < j < final(rows)@.len() ==> bucket_less(final(rows)@[i], final(rows)@[j]),
{
    let ghost rest = rows@;
    let mut pos: usize = 0;
    let mut found = false;
    while pos < rows.len() && !found
        invariant
            pos <= rows.len(),
            rows@ == rest,
            forall|i: int| 0 <= i < pos ==> !bucket_less(row, #[trigger] rows@[i]),
            found ==> pos < rows.len() && bucket_less(row, rows@[pos as int]),
        decreases rows.len() - pos + if found { 0int } else { 1int },
    {
        if row.count > rows[pos].count || (row.count == rows[pos].count && row.bucket.rank() < rows[pos].bucket.rank()) {
            found = true;
        } else {
            pos = pos + 1;
        }
    }
    rows.insert(pos, row);
    proof {
        let s = rows@;
        assert forall|i: int, j: int| #![trigger s[i], s[j]] 0 <= i < j < s.len() implies bucket_less(s[i], s[j]) by {
            if j < pos {
                assert(s[i] == rest[i] && s[j] == rest[j]);
            } else if j == pos {
                assert(s[i] == rest[i]);
            } else if i == pos {
                assert(s[j] == rest[j - 1]);
                if j - 1 > pos {
                    assert(bucket_less(rest[pos as int], rest[j - 1]));
                }
            } else if i < pos {
                assert(s[i] == rest[i] && s[j] == rest[j - 1]);
            } else {
                assert(s[i] == rest[i - 1] && s[j] == rest[j - 1]);
            }
        }
    }
}

/// The shape summary of the keys: each bucket with issues and their number,
/// in shape summary order.
pub fn summarise_buckets(keys: &Vec<(ManifestIssueSeverity, FacadeIssueCode)>) -> (rows: Vec<BucketRow>)
    ensures
        bucket_summarises(key_buckets(keys@), rows@),
{
    let ghost bs = key_buckets(keys@);
    let buckets = vec![
        FacadeIssueBucket::WorkspaceShape,
        FacadeIssueBucket::FacadeWiring,
        FacadeIssueBucket::PackageShape,
        FacadeIssueBucket::CategoryMetadata,
        FacadeIssueBucket::RepositoryShape,
        FacadeIssueBucket::ToolingSurface,
        FacadeIssueBucket::ReleaseSurface,
    ];
    assert(buckets@ =~= all_buckets());
    let mut rows: Vec<BucketRow> = Vec::new();
    let mut k: usize = 0;
    while k < buckets.len()
        invariant
            k <= buckets.len(),
            buckets@ == all_buckets(),
            bs == key_buckets(keys@),
            forall|i: int, j: int| #![trigger rows@[i], rows@[j]] 0 <= i < j < rows@.len() ==> bucket_less(rows@[i], rows@[j]),
            forall|i: int| 0 <= i < rows@.len() ==> (#[trigger] rows@[i]).count == bs.to_multiset().count(rows@[i].bucket)
                && rows@[i].count > 0 && bucket_rank(rows@[i].bucket) < k,
            forall|b: FacadeIssueBucket| bucket_rank(b) < k && bs.to_multiset().count(b) > 0 ==> exists|i: int| 0 <= i < rows@.len()
                && (#[trigger] rows@[i]).bucket == b,
        decreases buckets.len() - k,
    {
        let b = buckets[k];
        proof {
            lemma_all_buckets(b);
        }
        let n = bucket_count(keys, b);
        if n > 0 {
            let row = BucketRow { bucket: b, count: n };
            let ghost rest = rows@;
            insert_bucket_row(&mut rows, row);
            proof {
                let s = rows@;
                let pos = choose|pos: int| 0 <= pos <= rest.len() && s == rest.insert(pos, row);
                assert forall|i: int| 0 <= i < s.len() implies (#[trigger] s[i]).count == bs.to_multiset().count(s[i].bucket)
                    && s[i].count > 0 && bucket_rank(s[i].bucket) < k + 1 by {
                    if i < pos {
                        assert(s[i] == rest[i]);
                    } else if i > pos {
                        assert(s[i] == rest[i - 1]);
                    }
                }
                assert forall|c: FacadeIssueBucket| bucket_rank(c) < k + 1 && bs.to_multiset().count(c) > 0 implies exists|i: int| 0
                    <= i < s.len() && (#[trigger] s[i]).bucket == c by {
                    lemma_all_buckets(c);
                    if bucket_rank(c) == k {
                        assert(c == b);
                        assert(s[pos].bucket == c);
                    } else {
                        let i = choose|i: int| 0 <= i < rest.len() && (#[trigger] rest[i]).bucket == c;
                        if i < pos {
                            assert(s[i] == rest[i]);
                        } else {
                            assert(s[i + 1] == rest[i]);
                        }
                    }
                }
            }
        } else {
            proof {
                assert forall|c: FacadeIssueBucket| bucket_rank(c) < k + 1 && bs.to_multiset().count(c) > 0 implies exists|i: int| 0
                    <= i < rows@.len() && (#[trigger] rows@[i]).bucket == c by {
                    lemma_all_buckets(c);
                    if bucket_rank(c) == k {
                        assert(c == b);
                    }
                }
            }
        }
        k = k + 1;
    }
    proof {
        assert forall|m: int| 0 <= m < bs.len() implies exists|i: int| 0 <= i < rows@.len() && (#[trigger] rows@[i]).bucket == #[trigger] bs[m] by {
            lemma_all_buckets(bs[m]);
            vstd::seq_lib::to_multiset_contains(bs, bs[m]);
        }
    }
    rows
}

/// The rows of the shape summary table.
pub open spec fn bucket_rows_text(rows: Seq<BucketRow>) -> Seq<char>
    decreases rows.len(),
{
    if rows.len() == 0 {
        seq![]
    } else {
        bucket_rows_text(rows.drop_last()) + "| "@ + bucket_label(rows.last().bucket) + " | "@ + decimal(rows.last().count as nat)
            + " |\n"@
    }
}

/// The shape summary table, or nothing without issues.
pub open spec fn shape_summary_text(rows: Seq<BucketRow>) -> Seq<char> {
    if rows.len() == 0 {
        seq![]
    } else {
        "### Manifest Shape Summary\n\n"@ + "| Shape Area | Issues |\n"@ + "|---|---:|\n"@ + bucket_rows_text(rows) + "\n"@
    }
}

fn write_shape_summary(markdown: &mut String, rows: &Vec<BucketRow>)
    ensures
        final(markdown)@ == old(markdown)@ + shape_summary_text(rows@),
{
    if rows.len() == 0 {
        assert(old(markdown)@ + Seq::<char>::empty() =~= old(markdown)@);
        return;
    }
    let mut s = String::from_str("### Manifest Shape Summary\n\n");
    push_str(&mut s, "| Shape Area | Issues |\n");
    push_str(&mut s, "|---|---:|\n");
    let ghost head = s@;
    let mut i: usize = 0;
    while i < rows.len()
        invariant
            i <= rows.len(),
            s@ == head + bucket_rows_text(rows@.take(i as int)),
        decreases rows.len() - i,
    {
        let mut line = String::from_str("| ");
        push_str(&mut line, rows[i].bucket.as_str());
        push_str(&mut line, " | ");
        push_decimal(&mut line, rows[i].count);
        push_str(&mut line, " |\n");
        push_str(&mut s, line.as_str());
        proof {
            assert(rows@.take(i + 1).drop_last() =~= rows@.take(i as int));
            assert(s@ =~= head + (bucket_rows_text(rows@.take(i as int)) + line@));
        }
        i = i + 1;
    }
    push_str(&mut s, "\n");
    assert(rows@.take(i as int) =~= rows@);
    push_str(markdown, s.as_str());
}

/// The number of facades shown among the top offenders.
pub const TOP_MANIFEST_OFFENDER_LIMIT: usize = 15;

/// Whether facade report `a` ranks before `b` among the offenders: more
/// issues, then more errors, then more warnings, then by facade name.
pub open spec fn offender_less(a: FacadeManifestReport, b: FacadeManifestReport) -> bool {
    let (ca, cb) = (report_counts(a), report_counts(b));
    ||| ca.1 > cb.1
    ||| ca.1 == cb.1 && ca.2 > cb.2
    ||| ca.1 == cb.1 && ca.2 == cb.2 && ca.3 > cb.3
    ||| ca.1 == cb.1 && ca.2 == cb.2 && ca.3 == cb.3 && seq_lt(a.facade_name@, b.facade_name@)
}

proof fn lemma_offender_less_order(a: FacadeManifestReport, b: FacadeManifestReport, c: FacadeManifestReport)
    ensures
        !offender_less(a, a),
        offender_less(a, b) && offender_less(b, c) ==> offender_less(a, c),
{
    lemma_seq_lt_irreflexive(a.facade_name@);
    if offender_less(a, b) && offender_less(b, c) && seq_lt(a.facade_name@, b.facade_name@) && seq_lt(b.facade_name@, c.facade_name@) {
        lemma_seq_lt_transitive(a.facade_name@, b.facade_name@, c.facade_name@);
    }
}

proof fn lemma_offender_less_weak(a: FacadeManifestReport, b: FacadeManifestReport, c: FacadeManifestReport)
    requires
        offender_less(a, b),
        !offender_less(c, b),
    ensures
        offender_less(a, c),
{
    crate::text::lemma_seq_lt_total(b.facade_name@, c.facade_name@);
    if seq_lt(a.facade_name@, b.facade_name@) && seq_lt(b.facade_name@, c.facade_name@) {
        lemma_seq_lt_transitive(a.facade_name@, b.facade_name@, c.facade_name@);
    }
}

/// Whether neither of two facade reports ranks before the other.
pub open spec fn offender_tie(a: FacadeManifestReport, b: FacadeManifestReport) -> bool {
    !offender_less(a, b) && !offender_less(b, a)
}

/// The indices of the reports with issues, in order.
pub open spec fn with_issues(rs: Seq<FacadeManifestReport>) -> Seq<usize>
    decreases rs.len(),
{
    if rs.len() == 0 {
        seq![]
    } else {
        with_issues(rs.drop_last()) + if report_counts(rs.last()).1 > 0 {
            seq![(rs.len() - 1) as usize]
        } else {
            seq![]
        }
    }
}

/// Whether no report of `order` is followed by one that ranks before it,
/// and reports that tie come in the order of their indices.
pub open spec fn offenders_sorted(rs: Seq<FacadeManifestReport>, order: Seq<usize>) -> bool {
    &&& forall|i: int, j: int| #![trigger order[i], order[j]] 0 <= i < j < order.len() ==> !offender_less(
        rs[order[j] as int],
        rs[order[i] as int],
    )
    &&& forall|i: int, j: int| #![trigger order[i], order[j]] 0 <= i < j < order.len() && offender_tie(
        rs[order[i] as int],
        rs[order[j] as int],
    ) ==> order[i] < order[j]
}

fn offender_before(a: &FacadeManifestReport, b: &FacadeManifestReport) -> (r: bool)
    ensures
        r == offender_less(*a, *b),
{
    let (ia, ib) = (a.issue_count(), b.issue_count());
    if ia != ib {
        return ia > ib;
    }
    let (ea, eb) = (a.error_count(), b.error_count());
    if ea != eb {
        return ea > eb;
    }
    let (wa, wb) = (a.warning_count(), b.warning_count());
    if wa != wb {
        return wa > wb;
    }
    text_less(a.facade_name.as_str(), b.facade_name.as_str())
}

/// The indices of the reports with issues in offender order, ties kept in
/// report order.
pub fn offender_order(rs: &Vec<FacadeManifestReport>) -> (order: Vec<usize>)
    ensures
        order@.to_multiset() == with_issues(rs@).to_multiset(),
        forall|k: int| 0 <= k < order@.len() ==> order@[k] < rs@.len(),
        offenders_sorted(rs@, order@),
{
    let mut order: Vec<usize> = Vec::new();
    let mut n: usize = 0;
    while n < rs.len()
        invariant
            n <= rs.len(),
            order@.to_multiset() == with_issues(rs@.take(n as int)).to_multiset(),
            forall|k: int| 0 <= k < order@.len() ==> order@[k] < n,
            offenders_sorted(rs@, order@),
        decreases rs.len() - n,
    {
        assert(rs@.take(n + 1).drop_last() =~= rs@.take(n as int));
        if rs[n].issue_count() > 0 {
            let ghost old_order = order@;
            let mut pos: usize = 0;
            let mut found = false;
            while pos < order.len() && !found
                invariant
                    pos <= order.len(),
                    order@ == old_order,
                    n < rs.len(),
                    forall|k: int| 0 <= k < order@.len() ==> order@[k] < n,
                    forall|k: int| 0 <= k < pos ==> !offender_less(rs@[n as int], #[trigger] rs@[old_order[k] as int]),
                    found ==> pos < order.len() && offender_less(rs@[n as int], rs@[old_order[pos as int] as int]),
                decreases order.len() - pos + if found { 0int } else { 1int },
            {
                if offender_before(&rs[n], &rs[order[pos]]) {
                    found = true;
                } else {
                    pos = pos + 1;
                }
            }
            proof {
                let item = rs@[n as int];
                assert forall|k: int| pos <= k < old_order.len() implies !offender_less(#[trigger] rs@[old_order[k] as int], item) by {
                    let other = rs@[old_order[k] as int];
                    if offender_less(other, item) {
                        lemma_offender_less_order(other, item, rs@[old_order[pos as int] as int]);
                        if k > pos {
                            assert(!offender_less(rs@[old_order[k] as int], rs@[old_order[pos as int] as int]));
                        } else {
                            lemma_offender_less_order(other, other, other);
                        }
                    }
                }
                vstd::seq_lib::to_multiset_insert(old_order, pos as int, n);
            }
            order.insert(pos, n);
            proof {
                let s = order@;
                assert forall|i: int, j: int| #![trigger s[i], s[j]] 0 <= i < j < s.len() implies !offender_less(
                    rs@[s[j] as int],
                    rs@[s[i] as int],
                ) by {
                    if j < pos {
                        assert(s[i] == old_order[i] && s[j] == old_order[j]);
                    } else if j == pos {
                        assert(s[i] == old_order[i]);
                    } else if i == pos {
                        assert(s[j] == old_order[j - 1]);
                    } else if i < pos {
                        assert(s[i] == old_order[i] && s[j] == old_order[j - 1]);
                    } else {
                        assert(s[i] == old_order[i - 1] && s[j] == old_order[j - 1]);
                    }
                }
                assert forall|i: int, j: int| #![trigger s[i], s[j]] 0 <= i < j < s.len() && offender_tie(
                    rs@[s[i] as int],
                    rs@[s[j] as int],
                ) implies s[i] < s[j] by {
                    if j < pos {
                        assert(s[i] == old_order[i] && s[j] == old_order[j]);
                    } else if j == pos {
                        assert(s[i] == old_order[i]);
                    } else if i == pos {
                        assert(s[j] == old_order[j - 1]);
                        if j - 1 > pos {
                            assert(!offender_less(rs@[old_order[j - 1] as int], rs@[old_order[pos as int] as int]));
                            lemma_offender_less_weak(rs@[n as int], rs@[old_order[pos as int] as int], rs@[old_order[j - 1] as int]);
                        }
                    } else if i < pos {
                        assert(s[i] == old_order[i] && s[j] == old_order[j - 1]);
                    } else {
                        assert(s[i] == old_order[i - 1] && s[j] == old_order[j - 1]);
                    }
                }
                assert(with_issues(rs@.take(n + 1)) == with_issues(rs@.take(n as int)).push(n));
            }
        } else {
            assert(with_issues(rs@.take(n + 1)) =~= with_issues(rs@.take(n as int)));
        }
        n = n + 1;
    }
    assert(rs@.take(n as int) =~= rs@);
    order
}

/// The row of the report of rank `rank` among the offenders.
pub open spec fn offender_row(rank: nat, r: FacadeManifestReport) -> Seq<char> {
    let c = report_counts(r);
    "| "@ + decimal(rank) + " | "@ + report_status(r) + " | `"@ + r.facade_name@ + "` | "@ + decimal(c.0) + " | "@ + decimal(c.1)
        + " | "@ + decimal(c.2) + " | "@ + decimal(c.3) + " | "@ + decimal(c.4) + " |\n"@
}

/// The rows of the first `n` offenders of `order`.
pub open spec fn offender_rows(rs: Seq<FacadeManifestReport>, order: Seq<usize>, n: nat) -> Seq<char>
    decreases n,
{
    if n == 0 {
        seq![]
    } else {
        offender_rows(rs, order, (n - 1) as nat) + offender_row(n, rs[order[n - 1] as int])
    }
}

/// The table of the top offenders in `order`, or nothing without any.
pub open spec fn top_offenders_text(rs: Seq<FacadeManifestReport>, order: Seq<usize>) -> Seq<char> {
    let shown = if order.len() < 15 { order.len() } else { 15 };
    if order.len() == 0 {
        seq![]
    } else {
        "### Top Manifest Offenders\n\n"@ + "Showing the top "@ + decimal(shown) + " facade(s) by manifest issue count.\n"@ + "\n"@
            + "| Rank | Status | Facade | Manifests | Issues | Errors | Warnings | Invalid Categories |\n"@
            + "|---:|---|---|---:|---:|---:|---:|---:|\n"@ + offender_rows(rs, order, shown) + "\n"@
    }
}

fn write_top_offenders(markdown: &mut String, rs: &Vec<FacadeManifestReport>) -> (order: Ghost<Seq<usize>>)
    ensures
        order@.to_multiset() == with_issues(rs@).to_multiset(),
        offenders_sorted(rs@, order@),
        forall|k: int| 0 <= k < order@.len() ==> order@[k] < rs@.len(),
        final(markdown)@ == old(markdown)@ + top_offenders_text(rs@, order@),
{
    let order = offender_order(rs);
    if order.len() == 0 {
        assert(old(markdown)@ + Seq::<char>::empty() =~= old(markdown)@);
        return Ghost(order@);
    }
    let shown: usize = if order.len() < TOP_MANIFEST_OFFENDER_LIMIT { order.len() } else { TOP_MANIFEST_OFFENDER_LIMIT };
    let mut s = String::from_str("### Top Manifest Offenders\n\n");
    push_str(&mut s, "Showing the top ");
    push_decimal(&mut s, shown);
    push_str(&mut s, " facade(s) by manifest issue count.\n");
    push_str(&mut s, "\n");
    push_str(&mut s, "| Rank | Status | Facade | Manifests | Issues | Errors | Warnings | Invalid Categories |\n");
    push_str(&mut s, "|---:|---|---|---:|---:|---:|---:|---:|\n");
    let ghost head = s@;
    let mut i: usize = 0;
    while i < shown
        invariant
            i <= shown <= order@.len(),
            shown <= 15,
            forall|k: int| 0 <= k < order@.len() ==> order@[k] < rs@.len(),
            s@ == head + offender_rows(rs@, order@, i as nat),
        decreases shown - i,
    {
        let r = &rs[order[i]];
        let mut row = String::from_str("| ");
        push_decimal(&mut row, i + 1);
        push_str(&mut row, " | ");
        push_str(&mut row, r.status());
        push_str(&mut row, " | `");
        push_str(&mut row, r.facade_name.as_str());
        push_str(&mut row, "` | ");
        push_decimal(&mut row, r.manifest_count());
        push_str(&mut row, " | ");
        push_decimal(&mut row, r.issue_count());
        push_str(&mut row, " | ");
        push_decimal(&mut row, r.error_count());
        push_str(&mut row, " | ");
        push_decimal(&mut row, r.warning_count());
        push_str(&mut row, " | ");
        push_decimal(&mut row, r.invalid_category_count());
        push_str(&mut row, " |\n");
        assert(row@ == offender_row((i + 1) as nat, *r));
        push_str(&mut s, row.as_str());
        assert(s@ =~= head + (offender_rows(rs@, order@, i as nat) + offender_row((i + 1) as nat, *r)));
        i = i + 1;
    }
    push_str(&mut s, "\n");
    push_str(markdown, s.as_str());
    Ghost(order@)
}

/// The head of the fleet's manifest health section.
pub open spec fn fleet_health_head_text(d: FleetDiagnostics) -> Seq<char> {
    "## Cargo Manifest Health\n\n"@
        + "- Facades inspected: `"@ + decimal(d.manifests@.len()) + "`\n"@
        + "- Manifests inspected: `"@ + decimal(capped(fleet_manifest_total(d.manifests@))) + "`\n"@
        + "- Issues: `"@ + decimal(capped(fleet_sum(d.manifests@, ManifestCount::Issues))) + "` (`"@
        + decimal(capped(fleet_sum(d.manifests@, ManifestCount::Errors))) + "` error(s), `"@
        + decimal(capped(fleet_sum(d.manifests@, ManifestCount::Warnings))) + "` warning(s))\n"@
        + "- Invalid crates.io category slugs: `"@ + decimal(capped(fleet_sum(d.manifests@, ManifestCount::InvalidCategories)))
        + "`\n"@
        + "\n"@
}

fn write_fleet_health_head(markdown: &mut String, d: &FleetDiagnostics)
    ensures
        final(markdown)@ == old(markdown)@ + fleet_health_head_text(*d),
{
    let mut s = String::from_str("## Cargo Manifest Health\n\n");
    push_str(&mut s, "- Facades inspected: `");
    push_decimal(&mut s, d.manifests.len());
    push_str(&mut s, "`\n");
    push_str(&mut s, "- Manifests inspected: `");
    push_decimal(&mut s, d.manifest_count());
    push_str(&mut s, "`\n");
    push_str(&mut s, "- Issues: `");
    push_decimal(&mut s, d.manifest_issue_count());
    push_str(&mut s, "` (`");
    push_decimal(&mut s, d.manifest_error_count());
    push_str(&mut s, "` error(s), `");
    push_decimal(&mut s, d.manifest_warning_count());
    push_str(&mut s, "` warning(s))\n");
    push_str(&mut s, "- Invalid crates.io category slugs: `");
    push_decimal(&mut s, d.invalid_category_count());
    push_str(&mut s, "`\n");
    push_str(&mut s, "\n");
    push_str(markdown, s.as_str());
}

/// The manifest health section of a fleet, with `rows` its issue summary,
/// `buckets` its shape summary and `order` its offenders in order.
pub open spec fn fleet_health_text(d: FleetDiagnostics, rows: Seq<SummaryRow>, buckets: Seq<BucketRow>, order: Seq<usize>) -> Seq<char> {
    fleet_health_head_text(d) + summary_table_text(rows) + shape_summary_text(buckets) + by_facade_text(d.manifests@)
        + top_offenders_text(d.manifests@, order)
}

/// Appends the manifest health section of the fleet report.
pub fn write_fleet_manifest_health(markdown: &mut String, d: &FleetDiagnostics)
    ensures
        exists|rows: Seq<SummaryRow>, buckets: Seq<BucketRow>, order: Seq<usize>| {
            &&& summarises(fleet_keys(d.manifests@), rows)
            &&& bucket_summarises(key_buckets(fleet_keys(d.manifests@)), buckets)
            &&& order.to_multiset() == with_issues(d.manifests@).to_multiset()
            &&& offenders_sorted(d.manifests@, order)
            &&& forall|k: int| 0 <= k < order.len() ==> order[k] < d.manifests@.len()
            &&& final(markdown)@ == old(markdown)@ + fleet_health_text(*d, rows, buckets, order)
        },
{
    let mut s = String::new();
    write_fleet_health_head(&mut s, d);
    let keys = collect_fleet_keys(&d.manifests);
    let rows = summarise(&keys);
    write_summary_table(&mut s, &rows);
    let buckets = summarise_buckets(&keys);
    write_shape_summary(&mut s, &buckets);
    write_manifest_summary_by_facade(&mut s, &d.manifests);
    let order = write_top_offenders(&mut s, &d.manifests);
    assert(s@ =~= fleet_health_text(*d, rows@, buckets@, order@));
    push_str(markdown, s.as_str());
}

/// The report of a fleet, with `rows`, `buckets` and `order` as its
/// manifest health.
pub open spec fn fleet_report_text(d: FleetDiagnostics, rows: Seq<SummaryRow>, buckets: Seq<BucketRow>, order: Seq<usize>) -> Seq<char> {
    crate::fleet_report::fleet_summary_text(d) + crate::fleet_report::fleet_contents_text()
        + crate::fleet_report::fleet_repositories_text(d) + fleet_health_text(d, rows, buckets, order)
        + crate::fleet_report::facade_inventory_text(d) + crate::fleet_report::fleet_notes_text()
}

/// Whether `rows`, `buckets` and `order` are the issue summary, the shape
/// summary and the offender order of the fleet `d`.
pub open spec fn fleet_report_parts(d: FleetDiagnostics, rows: Seq<SummaryRow>, buckets: Seq<BucketRow>, order: Seq<usize>) -> bool {
    &&& summarises(fleet_keys(d.manifests@), rows)
    &&& bucket_summarises(key_buckets(fleet_keys(d.manifests@)), buckets)
    &&& order.to_multiset() == with_issues(d.manifests@).to_multiset()
    &&& offenders_sorted(d.manifests@, order)
}

/// Whether `markdown` is a report of the fleet `d`.
pub open spec fn fleet_report_of(d: FleetDiagnostics, markdown: Seq<char>) -> bool {
    exists|rows: Seq<SummaryRow>, buckets: Seq<BucketRow>, order: Seq<usize>|
        fleet_report_parts(d, rows, buckets, order) && markdown == fleet_report_text(d, rows, buckets, order)
}

/// The Markdown report of a fleet.
pub fn build_fleet_report(d: &FleetDiagnostics) -> (markdown: String)
    ensures
        fleet_report_of(*d, markdown@),
{
    let mut markdown = String::new();
    crate::fleet_report::write_fleet_summary(&mut markdown, d);
    crate::fleet_report::write_fleet_contents(&mut markdown);
    crate::fleet_report::write_fleet_repositories(&mut markdown, d);
    let ghost m0 = markdown@;
    write_fleet_manifest_health(&mut markdown, d);
    let ghost (rows, buckets, order) = choose|rows: Seq<SummaryRow>, buckets: Seq<BucketRow>, order: Seq<usize>| {
        &&& summarises(fleet_keys(d.manifests@), rows)
        &&& bucket_summarises(key_buckets(fleet_keys(d.manifests@)), buckets)
        &&& order.to_multiset() == with_issues(d.manifests@).to_multiset()
        &&& offenders_sorted(d.manifests@, order)
        &&& forall|k: int| 0 <= k < order.len() ==> order[k] < d.manifests@.len()
        &&& markdown@ == m0 + fleet_health_text(*d, rows, buckets, order)
    };
    crate::fleet_report::write_facade_inventory(&mut markdown, d);
    crate::fleet_report::write_fleet_notes(&mut markdown);
    assert(markdown@ =~= fleet_report_text(*d, rows, buckets, order));
    assert(fleet_report_parts(*d, rows, buckets, order));
    markdown
}

proof fn lemma_bucket_less_order(a: BucketRow, b: BucketRow, c: BucketRow)
    ensures
        !bucket_less(a, a),
        bucket_less(a, b) && bucket_less(b, c) ==> bucket_less(a, c),
        bucket_rank(a.bucket) == bucket_rank(b.bucket) ==> a.bucket == b.bucket,
{
    lemma_all_buckets(a.bucket);
    lemma_all_buckets(b.bucket);
}

proof fn lemma_sorted_buckets_same(a: Seq<BucketRow>, b: Seq<BucketRow>)
    requires
        forall|i: int, j: int| #![trigger a[i], a[j]] 0 <= i < j < a.len() ==> bucket_less(a[i], a[j]),
        forall|i: int, j: int| #![trigger b[i], b[j]] 0 <= i < j < b.len() ==> bucket_less(b[i], b[j]),
        forall|x: BucketRow| a.contains(x) <==> b.contains(x),
    ensures
        a == b,
    decreases a.len() + b.len(),
{
    if a.len() == 0 {
        if b.len() > 0 {
            assert(b.contains(b[0]));
        }
        assert(a =~= b);
    } else if b.len() == 0 {
        assert(a.contains(a[0]));
    } else {
        assert(a.contains(a[0]));
        assert(b.contains(b[0]));
        let j = choose|j: int| 0 <= j < b.len() && b[j] == a[0];
        let k = choose|k: int| 0 <= k < a.len() && a[k] == b[0];
        if a[0] != b[0] {
            assert(bucket_less(b[0], b[j]));
            assert(bucket_less(a[0], a[k]));
            lemma_bucket_less_order(a[0], b[0], a[0]);
        }
        let (a1, b1) = (a.drop_first(), b.drop_first());
        assert forall|x: BucketRow| a1.contains(x) <==> b1.contains(x) by {
            if a1.contains(x) {
                let i = choose|i: int| 0 <= i < a1.len() && a1[i] == x;
                assert(a[i + 1] == x && a.contains(x));
                assert(bucket_less(a[0], a[i + 1]));
                let m = choose|m: int| 0 <= m < b.len() && b[m] == x;
                if m == 0 {
                    lemma_bucket_less_order(x, x, x);
                }
                assert(b1[m - 1] == x);
            }
            if b1.contains(x) {
                let i = choose|i: int| 0 <= i < b1.len() && b1[i] == x;
                assert(b[i + 1] == x && b.contains(x));
                assert(bucket_less(b[0], b[i + 1]));
                let m = choose|m: int| 0 <= m < a.len() && a[m] == x;
                if m == 0 {
                    lemma_bucket_less_order(x, x, x);
                }
                assert(a1[m - 1] == x);
            }
        }
        lemma_sorted_buckets_same(a1, b1);
        assert(a =~= seq![a[0]] + a1);
        assert(b =~= seq![b[0]] + b1);
    }
}

/// The shape summary is determined by the buckets: any two shape
/// summaries of the same buckets are the same rows.
pub proof fn lemma_bucket_summarises_unique(bs: Seq<FacadeIssueBucket>, a: Seq<BucketRow>, b: Seq<BucketRow>)
    requires
        bucket_summarises(bs, a),
        bucket_summarises(bs, b),
    ensures
        a == b,
{
    assert forall|x: BucketRow| a.contains(x) <==> b.contains(x) by {
        if a.contains(x) {
            let i = choose|i: int| 0 <= i < a.len() && a[i] == x;
            assert(a[i].count == bs.to_multiset().count(x.bucket));
            vstd::seq_lib::to_multiset_contains(bs, x.bucket);
            let m = choose|m: int| 0 <= m < bs.len() && bs[m] == x.bucket;
            let w = choose|w: int| 0 <= w < b.len() && (#[trigger] b[w]).bucket == bs[m];
            assert(b[w] == x);
        }
        if b.contains(x) {
            let i = choose|i: int| 0 <= i < b.len() && b[i] == x;
            assert(b[i].count == bs.to_multiset().count(x.bucket));
            vstd::seq_lib::to_multiset_contains(bs, x.bucket);
            let m = choose|m: int| 0 <= m < bs.len() && bs[m] == x.bucket;
            let w = choose|w: int| 0 <= w < a.len() && (#[trigger] a[w]).bucket == bs[m];
            assert(a[w] == x);
        }
    }
    lemma_sorted_buckets_same(a, b);
}

/// The order of report indices among the offenders: by rank, and by index
/// among reports that tie.
pub open spec fn offender_index_before(rs: Seq<FacadeManifestReport>, i: usize, j: usize) -> bool {
    offender_less(rs[i as int], rs[j as int]) || (offender_tie(rs[i as int], rs[j as int]) && i < j)
}

proof fn lemma_offender_tie_same(a: FacadeManifestReport, b: FacadeManifestReport, c: FacadeManifestReport)
    requires
        offender_tie(a, b),
    ensures
        offender_less(a, c) == offender_less(b, c),
        offender_less(c, a) == offender_less(c, b),
{
    crate::text::lemma_seq_lt_total(a.facade_name@, b.facade_name@);
}

proof fn lemma_offender_index_before_order(rs: Seq<FacadeManifestReport>, i: usize, j: usize, k: usize)
    ensures
        !offender_index_before(rs, i, i),
        offender_index_before(rs, i, j) && offender_index_before(rs, j, k) ==> offender_index_before(rs, i, k),
        i != j ==> offender_index_before(rs, i, j) || offender_index_before(rs, j, i),
{
    let (a, b, c) = (rs[i as int], rs[j as int], rs[k as int]);
    lemma_offender_less_order(a, a, a);
    if offender_less(a, b) && offender_less(b, c) {
        lemma_offender_less_order(a, b, c);
    }
    if offender_tie(a, b) {
        lemma_offender_tie_same(a, b, c);
    }
    if offender_tie(b, c) {
        lemma_offender_tie_same(b, c, a);
    }
    if offender_tie(a, b) && offender_tie(b, c) {
        lemma_offender_tie_same(a, b, c);
        lemma_offender_tie_same(b, c, c);
        lemma_offender_less_order(c, c, c);
    }
}

proof fn lemma_offenders_sorted_before(rs: Seq<FacadeManifestReport>, o: Seq<usize>)
    requires
        offenders_sorted(rs, o),
    ensures
        forall|i: int, j: int| #![trigger o[i], o[j]] 0 <= i < j < o.len() ==> offender_index_before(rs, o[i], o[j]),
{
}

proof fn lemma_offender_orders_equal(rs: Seq<FacadeManifestReport>, a: Seq<usize>, b: Seq<usize>)
    requires
        forall|i: int, j: int| #![trigger a[i], a[j]] 0 <= i < j < a.len() ==> offender_index_before(rs, a[i], a[j]),
        forall|i: int, j: int| #![trigger b[i], b[j]] 0 <= i < j < b.len() ==> offender_index_before(rs, b[i], b[j]),
        forall|x: usize| a.contains(x) <==> b.contains(x),
    ensures
        a == b,
    decreases a.len() + b.len(),
{
    if a.len() == 0 {
        if b.len() > 0 {
            assert(b.contains(b[0]));
        }
        assert(a =~= b);
    } else if b.len() == 0 {
        assert(a.contains(a[0]));
    } else {
        assert(a.contains(a[0]));
        assert(b.contains(b[0]));
        let j = choose|j: int| 0 <= j < b.len() && b[j] == a[0];
        let k = choose|k: int| 0 <= k < a.len() && a[k] == b[0];
        if a[0] != b[0] {
            assert(offender_index_before(rs, b[0], b[j]));
            assert(offender_index_before(rs, a[0], a[k]));
            lemma_offender_index_before_order(rs, a[0], b[0], a[0]);
        }
        let (a1, b1) = (a.drop_first(), b.drop_first());
        assert forall|x: usize| a1.contains(x) <==> b1.contains(x) by {
            if a1.contains(x) {
                let i = choose|i: int| 0 <= i < a1.len() && a1[i] == x;
                assert(a[i + 1] == x && a.contains(x));
                assert(offender_index_before(rs, a[0], a[i + 1]));
                let m = choose|m: int| 0 <= m < b.len() && b[m] == x;
                if m == 0 {
                    lemma_offender_index_before_order(rs, x, x, x);
                }
                assert(b1[m - 1] == x);
            }
            if b1.contains(x) {
                let i = choose|i: int| 0 <= i < b1.len() && b1[i] == x;
                assert(b[i + 1] == x && b.contains(x));
                assert(offender_index_before(rs, b[0], b[i + 1]));
                let m = choose|m: int| 0 <= m < a.len() && a[m] == x;
                if m == 0 {
                    lemma_offender_index_before_order(rs, x, x, x);
                }
                assert(a1[m - 1] == x);
            }
        }
        lemma_offender_orders_equal(rs, a1, b1);
        assert(a =~= seq![a[0]] + a1);
        assert(b =~= seq![b[0]] + b1);
    }
}

/// The offender order of a fleet is determined by its reports: there is
/// one order of the reports with issues by rank, ties by index.
pub proof fn lemma_offender_order_unique(rs: Seq<FacadeManifestReport>, o1: Seq<usize>, o2: Seq<usize>)
    requires
        o1.to_multiset() == with_issues(rs).to_multiset(),
        o2.to_multiset() == with_issues(rs).to_multiset(),
        offenders_sorted(rs, o1),
        offenders_sorted(rs, o2),
    ensures
        o1 == o2,
{
    lemma_offenders_sorted_before(rs, o1);
    lemma_offenders_sorted_before(rs, o2);
    assert forall|x: usize| o1.contains(x) <==> o2.contains(x) by {
        vstd::seq_lib::to_multiset_contains(o1, x);
        vstd::seq_lib::to_multiset_contains(o2, x);
        if o1.contains(x) {
            assert(o2.to_multiset().count(x) > 0);
        }
        if o2.contains(x) {
            assert(o1.to_multiset().count(x) > 0);
        }
    }
    lemma_offender_orders_equal(rs, o1, o2);
}

/// The report of a fleet is deterministic: two reports of the same fleet
/// diagnostics are the same text.
pub proof fn lemma_fleet_report_deterministic(d: FleetDiagnostics, m1: Seq<char>, m2: Seq<char>)
    requires
        fleet_report_of(d, m1),
        fleet_report_of(d, m2),
    ensures
        m1 == m2,
{
    let (r1, b1, o1) = choose|rows: Seq<SummaryRow>, buckets: Seq<BucketRow>, order: Seq<usize>|
        fleet_report_parts(d, rows, buckets, order) && m1 == fleet_report_text(d, rows, buckets, order);
    let (r2, b2, o2) = choose|rows: Seq<SummaryRow>, buckets: Seq<BucketRow>, order: Seq<usize>|
        fleet_report_parts(d, rows, buckets, order) && m2 == fleet_report_text(d, rows, buckets, order);
    crate::report_manifest::lemma_summarises_unique(fleet_keys(d.manifests@), r1, r2);
    lemma_bucket_summarises_unique(key_buckets(fleet_keys(d.manifests@)), b1, b2);
    lemma_offender_order_unique(d.manifests@, o1, o2);
}

} // verus!
