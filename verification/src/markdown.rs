//! Pieces of Markdown shared by the reports: yes/no cells, presence tables
//! and tallies of labels in label order.

use vstd::prelude::*;
use vstd::multiset::Multiset;
use vstd::string::StringExecFns;

use crate::facade_surface::PresenceCheck;
use crate::text::{lemma_seq_lt_total, lemma_seq_lt_transitive, push_str, seq_lt, str_eq, text_less, views};

verus! {

broadcast use vstd::seq_lib::group_to_multiset_ensures;

/// `yes` or `no`.
pub open spec fn yes_no_text(b: bool) -> Seq<char> {
    if b {
        "yes"@
    } else {
        "no"@
    }
}

/// `yes` or `no`.
pub fn yes_no(b: bool) -> (s: &'static str)
    ensures
        s@ == yes_no_text(b),
{
    if b {
        "yes"
    } else {
        "no"
    }
}

/// The row of one presence check.
pub open spec fn presence_row(c: PresenceCheck) -> Seq<char> {
    "| `"@ + c.path@ + "` | "@ + yes_no_text(c.present) + " |\n"@
}

/// The rows of presence checks, in order.
pub open spec fn presence_rows(s: Seq<PresenceCheck>) -> Seq<char>
    decreases s.len(),
{
    if s.len() == 0 {
        seq![]
    } else {
        presence_rows(s.drop_last()) + presence_row(s.last())
    }
}

/// A table of paths and whether each is present, followed by a blank line.
pub open spec fn presence_table(s: Seq<PresenceCheck>) -> Seq<char> {
    "| Path | Present |\n"@ + "|---|---:|\n"@ + presence_rows(s) + "\n"@
}

/// Appends the presence table of `checks`.
pub fn write_presence_table(markdown: &mut String, checks: &Vec<PresenceCheck>)
    ensures
        final(markdown)@ == old(markdown)@ + presence_table(checks@),
{
    push_str(markdown, "| Path | Present |\n");
    push_str(markdown, "|---|---:|\n");
    let ghost head = markdown@;
    let mut i: usize = 0;
    while i < checks.len()
        invariant
            i <= checks.len(),
            markdown@ == head + presence_rows(checks@.take(i as int)),
        decreases checks.len() - i,
    {
        let c = &checks[i];
        push_str(markdown, "| `");
        push_str(markdown, c.path.as_str());
        push_str(markdown, "` | ");
        push_str(markdown, yes_no(c.present));
        push_str(markdown, " |\n");
        proof {
            assert(checks@.take(i + 1).drop_last() =~= checks@.take(i as int));
            assert(markdown@ =~= head + presence_rows(checks@.take(i + 1)));
        }
        i = i + 1;
    }
    push_str(markdown, "\n");
    assert(checks@.take(i as int) =~= checks@);
    assert(markdown@ =~= old(markdown)@ + presence_table(checks@));
}

/// One label of a tally and how often it occurs.
#[derive(Clone, Debug)]
pub struct TallyRow {
    pub label: String,
    pub count: usize,
}

/// Whether `rows` tally `labels`: each distinct label once, in strictly
/// increasing label order, with the number of times it occurs.
pub open spec fn tallies(labels: Seq<Seq<char>>, rows: Seq<TallyRow>) -> bool {
    &&& forall|i: int, j: int| #![trigger rows[i], rows[j]] 0 <= i < j < rows.len() ==> seq_lt(rows[i].label@, rows[j].label@)
    &&& forall|i: int| 0 <= i < rows.len() ==> (#[trigger] rows[i]).count == labels.to_multiset().count(rows[i].label@)
        && rows[i].count > 0
    &&& forall|k: int| 0 <= k < labels.len() ==> exists|i: int| 0 <= i < rows.len() && (#[trigger] rows[i]).label@ == #[trigger] labels[k]
}

/// The tally of `labels`: each distinct label with its number of
/// occurrences, in label order.
pub fn tally(labels: &Vec<String>) -> (rows: Vec<TallyRow>)
    ensures
        tallies(views(labels@), rows@),
{
    let ghost all = views(labels@);
    let mut rows: Vec<TallyRow> = Vec::new();
    let mut k: usize = 0;
    while k < labels.len()
        invariant
            k <= labels.len(),
            all == views(labels@),
            tallies(all.take(k as int), rows@),
        decreases labels.len() - k,
    {
        let label = &labels[k];
        let ghost prefix = all.take(k as int);
        let ghost next = all.take(k + 1);
        assert(next =~= prefix.push(label@));
        assert(next.to_multiset() =~= prefix.to_multiset().insert(label@));
        let mut pos: usize = 0;
        let mut equal = false;
        let mut after = false;
        while pos < rows.len() && !equal && !after
            invariant
                pos <= rows.len(),
                forall|i: int| 0 <= i < pos ==> seq_lt(#[trigger] rows@[i].label@, label@),
                equal ==> pos < rows.len() && rows@[pos as int].label@ == label@,
                after ==> pos < rows.len() && seq_lt(label@, rows@[pos as int].label@),
            decreases rows.len() - pos + if equal || after { 0int } else { 1int },
        {
            if str_eq(rows[pos].label.as_str(), label.as_str()) {
                equal = true;
            } else if text_less(label.as_str(), rows[pos].label.as_str()) {
                after = true;
            } else {
                proof {
                    lemma_seq_lt_total(label@, rows@[pos as int].label@);
                }
                pos = pos + 1;
            }
        }
        let ghost old_rows = rows@;
        proof {
            vstd::seq_lib::to_multiset_len(prefix);
        }
        if equal {
            let count = rows[pos].count;
            proof {
                vstd::seq_lib::to_multiset_contains(prefix, label@);
                assert(count == prefix.to_multiset().count(label@));
                assert(prefix.to_multiset().count(label@) <= prefix.len()) by {
                    lemma_count_le_len(prefix, label@);
                }
            }
            let row = TallyRow { label: rows[pos].label.clone(), count: count + 1 };
            rows.set(pos, row);
            proof {
                assert forall|j: int| 0 <= j < k + 1 implies exists|i: int| 0 <= i < rows@.len() && (#[trigger] rows@[i]).label@ == #[trigger] next[j] by {
                    if j < k {
                        assert(next[j] == prefix[j]);
                        let i = choose|i: int| 0 <= i < old_rows.len() && (#[trigger] old_rows[i]).label@ == prefix[j];
                        assert(rows@[i].label@ == old_rows[i].label@);
                    } else {
                        assert(rows@[pos as int].label@ == next[j]);
                    }
                }
                assert forall|i: int| 0 <= i < rows@.len() implies (#[trigger] rows@[i]).count == next.to_multiset().count(rows@[i].label@)
                    && rows@[i].count > 0 by {
                    if i != pos {
                        assert(rows@[i] == old_rows[i]);
                        if rows@[i].label@ == label@ {
                            if i < pos {
                                assert(seq_lt(label@, label@));
                                crate::text::lemma_seq_lt_irreflexive(label@);
                            } else {
                                assert(seq_lt(old_rows[pos as int].label@, old_rows[i].label@));
                                crate::text::lemma_seq_lt_irreflexive(label@);
                            }
                        }
                    }
                }
                assert forall|i: int, j: int| #![trigger rows@[i], rows@[j]] 0 <= i < j < rows@.len() implies seq_lt(rows@[i].label@, rows@[j].label@) by {
                    assert(rows@[i].label@ == old_rows[i].label@);
                    assert(rows@[j].label@ == old_rows[j].label@);
                }
            }
        } else {
            proof {
                assert forall|i: int| pos <= i < old_rows.len() implies seq_lt(label@, #[trigger] old_rows[i].label@) by {
                    if i > pos {
                        lemma_seq_lt_transitive(label@, old_rows[pos as int].label@, old_rows[i].label@);
                    }
                }
                assert(!prefix.contains(label@)) by {
                    if prefix.contains(label@) {
                        let j = choose|j: int| 0 <= j < prefix.len() && prefix[j] == label@;
                        let i = choose|i: int| 0 <= i < old_rows.len() && (#[trigger] old_rows[i]).label@ == prefix[j];
                        if i < pos {
                            crate::text::lemma_seq_lt_irreflexive(label@);
                        } else {
                            crate::text::lemma_seq_lt_irreflexive(label@);
                        }
                    }
                }
                vstd::seq_lib::to_multiset_contains(prefix, label@);
            }
            rows.insert(pos, TallyRow { label: label.clone(), count: 1 });
            proof {
                let s = rows@;
                assert forall|i: int, j: int| #![trigger s[i], s[j]] 0 <= i < j < s.len() implies seq_lt(s[i].label@, s[j].label@) by {
                    if j < pos {
                        assert(s[i] == old_rows[i] && s[j] == old_rows[j]);
                    } else if j == pos {
                        assert(s[i] == old_rows[i]);
                    } else if i == pos {
                        assert(s[j] == old_rows[j - 1]);
                    } else if i < pos {
                        assert(s[i] == old_rows[i] && s[j] == old_rows[j - 1]);
                        lemma_seq_lt_transitive(s[i].label@, label@, s[j].label@);
                    } else {
                        assert(s[i] == old_rows[i - 1] && s[j] == old_rows[j - 1]);
                    }
                }
                assert forall|i: int| 0 <= i < s.len() implies (#[trigger] s[i]).count == next.to_multiset().count(s[i].label@)
                    && s[i].count > 0 by {
                    if i < pos {
                        assert(s[i] == old_rows[i]);
                        assert(s[i].label@ != label@) by {
                            if s[i].label@ == label@ {
                                crate::text::lemma_seq_lt_irreflexive(label@);
                            }
                        }
                    } else if i > pos {
                        assert(s[i] == old_rows[i - 1]);
                        assert(s[i].label@ != label@) by {
                            if s[i].label@ == label@ {
                                crate::text::lemma_seq_lt_irreflexive(label@);
                            }
                        }
                    }
                }
                assert forall|j: int| 0 <= j < k + 1 implies exists|i: int| 0 <= i < s.len() && (#[trigger] s[i]).label@ == #[trigger] next[j] by {
                    if j < k {
                        assert(next[j] == prefix[j]);
                        let i = choose|i: int| 0 <= i < old_rows.len() && (#[trigger] old_rows[i]).label@ == prefix[j];
                        if i < pos {
                            assert(s[i] == old_rows[i]);
                        } else {
                            assert(s[i + 1] == old_rows[i]);
                        }
                    } else {
                        assert(s[pos as int].label@ == next[j]);
                    }
                }
            }
        }
        k = k + 1;
    }
    assert(all.take(k as int) =~= all);
    rows
}

proof fn lemma_count_le_len(s: Seq<Seq<char>>, x: Seq<char>)
    ensures
        s.to_multiset().count(x) <= s.len(),
    decreases s.len(),
{
    if s.len() > 0 {
        assert(s =~= s.drop_last().push(s.last()));
        assert(s.to_multiset() =~= s.drop_last().to_multiset().insert(s.last()));
        lemma_count_le_len(s.drop_last(), x);
    }
}

/// The labels of the rows of a tally, in order.
pub open spec fn row_labels(rows: Seq<TallyRow>) -> Seq<Seq<char>> {
    rows.map_values(|r: TallyRow| r.label@)
}

proof fn lemma_sorted_same_elements(a: Seq<Seq<char>>, b: Seq<Seq<char>>)
    requires
        forall|i: int, j: int| #![trigger a[i], a[j]] 0 <= i < j < a.len() ==> seq_lt(a[i], a[j]),
        forall|i: int, j: int| #![trigger b[i], b[j]] 0 <= i < j < b.len() ==> seq_lt(b[i], b[j]),
        forall|x: Seq<char>| a.contains(x) <==> b.contains(x),
    ensures
        a == b,
    decreases a.len() + b.len(),
{
    if a.len() == 0 {
        if b.len() > 0 {
            assert(b.contains(b[0]));
        }
        assert(a =~= b);
    } else if b.len() == 0 {
        assert(a.contains(a[0]));
    } else {
        assert(a.contains(a[0]));
        assert(b.contains(b[0]));
        let j = choose|j: int| 0 <= j < b.len() && b[j] == a[0];
        let k = choose|k: int| 0 <= k < a.len() && a[k] == b[0];
        if a[0] != b[0] {
            assert(j > 0 && k > 0);
            assert(seq_lt(b[0], b[j]));
            assert(seq_lt(a[0], a[k]));
            crate::text::lemma_seq_lt_asymmetric(a[0], b[0]);
        }
        let (a1, b1) = (a.drop_first(), b.drop_first());
        assert forall|x: Seq<char>| a1.contains(x) <==> b1.contains(x) by {
            if a1.contains(x) {
                let i = choose|i: int| 0 <= i < a1.len() && a1[i] == x;
                assert(a.contains(x) && a[i + 1] == x);
                assert(seq_lt(a[0], a[i + 1]));
                let m = choose|m: int| 0 <= m < b.len() && b[m] == x;
                if m == 0 {
                    crate::text::lemma_seq_lt_irreflexive(x);
                }
                assert(b1[m - 1] == x);
            }
            if b1.contains(x) {
                let i = choose|i: int| 0 <= i < b1.len() && b1[i] == x;
                assert(b.contains(x) && b[i + 1] == x);
                assert(seq_lt(b[0], b[i + 1]));
                let m = choose|m: int| 0 <= m < a.len() && a[m] == x;
                if m == 0 {
                    crate::text::lemma_seq_lt_irreflexive(x);
                }
                assert(a1[m - 1] == x);
            }
        }
        lemma_sorted_same_elements(a1, b1);
        assert(a =~= seq![a[0]] + a1);
        assert(b =~= seq![b[0]] + b1);
    }
}

/// A tally is determined by its labels: any two tallies of the same labels
/// have the same rows, label for label and count for count.
pub proof fn lemma_tallies_unique(labels: Seq<Seq<char>>, a: Seq<TallyRow>, b: Seq<TallyRow>)
    requires
        tallies(labels, a),
        tallies(labels, b),
    ensures
        row_labels(a) == row_labels(b),
        forall|i: int| 0 <= i < a.len() ==> (#[trigger] a[i]).count == b[i].count,
{
    let (la, lb) = (row_labels(a), row_labels(b));
    assert forall|x: Seq<char>| la.contains(x) <==> labels.contains(x) by {
        if la.contains(x) {
            let i = choose|i: int| 0 <= i < la.len() && la[i] == x;
            assert(a[i].label@ == x);
            vstd::seq_lib::to_multiset_contains(labels, x);
        }
        if labels.contains(x) {
            let k = choose|k: int| 0 <= k < labels.len() && labels[k] == x;
            let i = choose|i: int| 0 <= i < a.len() && (#[trigger] a[i]).label@ == labels[k];
            assert(la[i] == x);
        }
    }
    assert forall|x: Seq<char>| lb.contains(x) <==> labels.contains(x) by {
        if lb.contains(x) {
            let i = choose|i: int| 0 <= i < lb.len() && lb[i] == x;
            assert(b[i].label@ == x);
            vstd::seq_lib::to_multiset_contains(labels, x);
        }
        if labels.contains(x) {
            let k = choose|k: int| 0 <= k < labels.len() && labels[k] == x;
            let i = choose|i: int| 0 <= i < b.len() && (#[trigger] b[i]).label@ == labels[k];
            assert(lb[i] == x);
        }
    }
    assert forall|i: int, j: int| #![trigger la[i], la[j]] 0 <= i < j < la.len() implies seq_lt(la[i], la[j]) by {
        assert(seq_lt(a[i].label@, a[j].label@));
    }
    assert forall|i: int, j: int| #![trigger lb[i], lb[j]] 0 <= i < j < lb.len() implies seq_lt(lb[i], lb[j]) by {
        assert(seq_lt(b[i].label@, b[j].label@));
    }
    lemma_sorted_same_elements(la, lb);
    assert forall|i: int| 0 <= i < a.len() implies (#[trigger] a[i]).count == b[i].count by {
        assert(la[i] == lb[i]);
        assert(a[i].label@ == b[i].label@);
    }
}

} // verus!
