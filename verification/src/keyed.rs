//! Sorting by a text key, keeping the first element of each key.

use vstd::prelude::*;

use crate::text::{lemma_seq_lt_total, lemma_seq_lt_transitive, seq_lt, str_eq, text_less};

verus! {

/// A value with a text key.
pub trait Keyed {
    /// The key of the value.
    spec fn key_view(&self) -> Seq<char>;

    /// The key of the value.
    fn key(&self) -> (k: &str)
        ensures
            k@ == self.key_view();
}

/// Whether the keys of `s` strictly increase, so that no key occurs twice.
pub open spec fn strictly_sorted_by_key<T: Keyed>(s: Seq<T>) -> bool {
    forall|i: int, j: int| 0 <= i < j < s.len() ==> seq_lt(#[trigger] s[i].key_view(), #[trigger] s[j].key_view())
}

/// Whether `x` is an element of `s`.
pub open spec fn is_element<T>(s: Seq<T>, x: T) -> bool {
    exists|k: int| 0 <= k < s.len() && #[trigger] s[k] == x
}

/// Whether some element of `s` has key `key`.
pub open spec fn has_key_in<T: Keyed>(s: Seq<T>, key: Seq<char>) -> bool {
    exists|k: int| 0 <= k < s.len() && #[trigger] s[k].key_view() == key
}

/// Whether `out` is `source` sorted by key with later repeats of a key
/// dropped.
pub open spec fn is_key_index_of<T: Keyed>(out: Seq<T>, source: Seq<T>) -> bool {
    &&& strictly_sorted_by_key(out)
    &&& forall|j: int| 0 <= j < out.len() ==> is_element(source, #[trigger] out[j])
    &&& forall|k: int| 0 <= k < source.len() ==> has_key_in(out, #[trigger] source[k].key_view())
}

/// Sorts `source` by key and keeps only the first element of each key.
pub fn sort_dedup_by_key<T: Keyed>(source: Vec<T>) -> (out: Vec<T>)
    ensures
        is_key_index_of(out@, source@),
{
    let ghost src = source@;
    let total: usize = source.len();
    let mut rest = source;
    let mut out: Vec<T> = Vec::new();
    let mut taken: usize = 0;
    while rest.len() > 0
        invariant
            taken + rest.len() == src.len(),
            src.len() == total,
            rest@ == src.subrange(taken as int, src.len() as int),
            strictly_sorted_by_key(out@),
            forall|j: int| 0 <= j < out.len() ==> is_element(src, #[trigger] out@[j]),
            forall|k: int| 0 <= k < taken ==> has_key_in(out@, #[trigger] src[k].key_view()),
        decreases rest.len(),
    {
        let ghost before = rest@;
        let e = rest.remove(0);
        let ghost outv = out@;
        assert(e == src[taken as int]);
        assert(rest@ =~= src.subrange(taken + 1, src.len() as int));
        let mut p: usize = 0;
        while p < out.len() && text_less(out[p].key(), e.key())
            invariant
                p <= out.len(),
                outv == out@,
                forall|q: int| 0 <= q < p ==> seq_lt(#[trigger] outv[q].key_view(), e.key_view()),
            decreases out.len() - p,
        {
            p = p + 1;
        }
        if p < out.len() && str_eq(out[p].key(), e.key()) {
            assert(outv[p as int].key_view() == src[taken as int].key_view());
        } else {
            proof {
                if p < out.len() {
                    lemma_seq_lt_total(outv[p as int].key_view(), e.key_view());
                }
                assert forall|q: int| p <= q < outv.len() implies seq_lt(e.key_view(), #[trigger] outv[q].key_view()) by {
                    if q > p {
                        lemma_seq_lt_transitive(e.key_view(), outv[p as int].key_view(), outv[q].key_view());
                    }
                }
            }
            out.insert(p, e);
            proof {
                let nv = out@;
                assert(nv =~= outv.insert(p as int, e));
                assert forall|i: int, j: int| 0 <= i < j < nv.len() implies seq_lt(#[trigger] nv[i].key_view(), #[trigger] nv[j].key_view()) by {
                    if i < p && j > p {
                        assert(nv[j] == outv[j - 1]);
                    } else if i == p && j > p {
                        assert(nv[j] == outv[j - 1]);
                    } else if i > p {
                        assert(nv[i] == outv[i - 1]);
                        assert(nv[j] == outv[j - 1]);
                    }
                }
                assert forall|j: int| 0 <= j < nv.len() implies is_element(src, #[trigger] nv[j]) by {
                    if j < p {
                        assert(nv[j] == outv[j]);
                    } else if j == p {
                        assert(src[taken as int] == nv[j]);
                    } else {
                        assert(nv[j] == outv[j - 1]);
                    }
                }
                assert forall|k: int| 0 <= k < taken implies has_key_in(nv, #[trigger] src[k].key_view()) by {
                    let w = choose|w: int| 0 <= w < outv.len() && #[trigger] outv[w].key_view() == src[k].key_view();
                    if w < p {
                        assert(nv[w] == outv[w]);
                    } else {
                        assert(nv[w + 1] == outv[w]);
                    }
                }
                assert(nv[p as int].key_view() == src[taken as int].key_view());
            }
        }
        proof {
            let nv = out@;
            assert forall|k: int| 0 <= k < taken + 1 implies has_key_in(nv, #[trigger] src[k].key_view()) by {
                if k == taken {
                    assert(nv[p as int].key_view() == src[k].key_view());
                }
            }
        }
        taken = taken + 1;
    }
    out
}

} // verus!
