//! The RustUse catalog: built-in entries, a name-sorted index over them,
//! exact-name lookup and case-insensitive search.
//!
//! The catalog never touches the filesystem, so catalog commands work
//! anywhere.

use vstd::prelude::*;

use crate::text::{ascii_lower, trim_end, trim_start, 
    ascii_lowercase, is_space, lemma_seq_lt_asymmetric, lemma_seq_lt_irreflexive,
    lemma_seq_lt_total, lemma_seq_lt_transitive, lower, occurs_in, seq_lt, str_eq, text_less,
    trim, trimmed, contains,
};

verus! {

/// How a catalog entry may be adopted.
#[derive(Clone, Copy, Debug, PartialEq, Eq, Structural)]
pub enum DistributionMode {
    Cargo,
    Copy,
    Cli,
}

/// The label of a distribution mode.
pub open spec fn mode_label(mode: DistributionMode) -> Seq<char> {
    match mode {
        DistributionMode::Cargo => "cargo"@,
        DistributionMode::Copy => "copy"@,
        DistributionMode::Cli => "cli"@,
    }
}

impl DistributionMode {
    /// The stable lower-case label of the mode.
    pub fn as_str(self) -> (label: &'static str)
        ensures
            label@ == mode_label(self),
    {
        match self {
            DistributionMode::Cargo => "cargo",
            DistributionMode::Copy => "copy",
            DistributionMode::Cli => "cli",
        }
    }
}

/// One entry of the catalog.
#[derive(Clone, Debug, PartialEq, Eq)]
pub struct CatalogEntry {
    pub name: String,
    pub kind: String,
    pub set: String,
    pub docs_url: String,
    pub api_docs_url: String,
    pub workspace_docs_url: Option<String>,
    pub modes: Vec<DistributionMode>,
}

/// The mathematical content of a catalog entry.
pub struct EntryView {
    pub name: Seq<char>,
    pub kind: Seq<char>,
    pub set: Seq<char>,
    pub docs_url: Seq<char>,
    pub api_docs_url: Seq<char>,
    pub workspace_docs_url: Option<Seq<char>>,
    pub modes: Seq<DistributionMode>,
}

/// The view of an optional string.
pub open spec fn opt_view(s: Option<String>) -> Option<Seq<char>> {
    match s {
        Some(s) => Some(s@),
        None => None,
    }
}

impl View for CatalogEntry {
    type V = EntryView;

    open spec fn view(&self) -> EntryView {
        EntryView {
            name: self.name@,
            kind: self.kind@,
            set: self.set@,
            docs_url: self.docs_url@,
            api_docs_url: self.api_docs_url@,
            workspace_docs_url: opt_view(self.workspace_docs_url),
            modes: self.modes@,
        }
    }
}

/// The views of a sequence of entries.
pub open spec fn entry_views(s: Seq<CatalogEntry>) -> Seq<EntryView> {
    s.map_values(|e: CatalogEntry| e@)
}

/// The built-in catalog data, in its stored order.
pub open spec fn generated_view() -> Seq<EntryView> {
    seq![
        EntryView {
            name: "use-geometry"@,
            kind: "focused crate"@,
            set: "use-geometry"@,
            docs_url: "https://rustuse.org/use-geometry/"@,
            api_docs_url: "https://rustuse.org/api/use-geometry/"@,
            workspace_docs_url: None,
            modes: seq![DistributionMode::Cargo, DistributionMode::Cli],
        },
        EntryView {
            name: "use-combinatorics"@,
            kind: "child crate"@,
            set: "use-math"@,
            docs_url: "https://rustuse.org/use-math/use-combinatorics/"@,
            api_docs_url: "https://rustuse.org/api/use-combinatorics/"@,
            workspace_docs_url: Some("https://rustuse.org/api/workspaces/use-math/"@),
            modes: seq![DistributionMode::Cargo, DistributionMode::Cli],
        },
        EntryView {
            name: "use-math"@,
            kind: "facade crate"@,
            set: "use-math"@,
            docs_url: "https://rustuse.org/use-math/"@,
            api_docs_url: "https://rustuse.org/api/use-math/"@,
            workspace_docs_url: Some("https://rustuse.org/api/workspaces/use-math/"@),
            modes: seq![DistributionMode::Cargo, DistributionMode::Cli],
        },
        EntryView {
            name: "use-slug"@,
            kind: "child crate"@,
            set: "use-text"@,
            docs_url: "https://rustuse.org/use-text/use-slug/"@,
            api_docs_url: "https://rustuse.org/api/use-slug/"@,
            workspace_docs_url: None,
            modes: seq![DistributionMode::Cargo, DistributionMode::Cli],
        },
    ]
}

/// Whether the names of `s` strictly increase, so that no name occurs twice.
pub open spec fn strictly_sorted_by_name(s: Seq<EntryView>) -> bool {
    forall|i: int, j: int| 0 <= i < j < s.len() ==> seq_lt(#[trigger] s[i].name, #[trigger] s[j].name)
}

/// Whether some entry of `s` carries the name `name`.
pub open spec fn has_name(s: Seq<EntryView>, name: Seq<char>) -> bool {
    exists|k: int| 0 <= k < s.len() && #[trigger] s[k].name == name
}

/// Whether `e` is one of the entries of `s`.
pub open spec fn has_entry(s: Seq<EntryView>, e: EntryView) -> bool {
    exists|k: int| 0 <= k < s.len() && #[trigger] s[k] == e
}

/// Whether `index` is `source` sorted by name with repeated names dropped.
pub open spec fn is_name_index_of(index: Seq<EntryView>, source: Seq<EntryView>) -> bool {
    &&& strictly_sorted_by_name(index)
    &&& forall|j: int| 0 <= j < index.len() ==> has_entry(source, #[trigger] index[j])
    &&& forall|k: int| 0 <= k < source.len() ==> has_name(index, #[trigger] source[k].name)
}

/// Whether a catalog entry matches a lower-cased, trimmed query.
pub open spec fn entry_matches(e: EntryView, query: Seq<char>) -> bool {
    ||| occurs_in(e.name, query)
    ||| occurs_in(e.kind, query)
    ||| occurs_in(e.set, query)
    ||| exists|m: int| 0 <= m < e.modes.len() && occurs_in(mode_label(#[trigger] e.modes[m]), query)
}

/// The predicate that selects the entries matching `query`.
pub open spec fn matcher(query: Seq<char>) -> spec_fn(EntryView) -> bool {
    |e: EntryView| entry_matches(e, query)
}

/// The query that search compares against: trimmed and ASCII lower-cased.
pub open spec fn normalized_query(query: Seq<char>) -> Seq<char> {
    lower(trim(query))
}

/// Returns the built-in catalog entries in their stored order.
pub fn generated_entries() -> (entries: Vec<CatalogEntry>)
    ensures
        entry_views(entries@) == generated_view(),
{
    let entries = vec![
        CatalogEntry {
            name: "use-geometry".to_owned(),
            kind: "focused crate".to_owned(),
            set: "use-geometry".to_owned(),
            docs_url: "https://rustuse.org/use-geometry/".to_owned(),
            api_docs_url: "https://rustuse.org/api/use-geometry/".to_owned(),
            workspace_docs_url: None,
            modes: vec![DistributionMode::Cargo, DistributionMode::Cli],
        },
        CatalogEntry {
            name: "use-combinatorics".to_owned(),
            kind: "child crate".to_owned(),
            set: "use-math".to_owned(),
            docs_url: "https://rustuse.org/use-math/use-combinatorics/".to_owned(),
            api_docs_url: "https://rustuse.org/api/use-combinatorics/".to_owned(),
            workspace_docs_url: Some("https://rustuse.org/api/workspaces/use-math/".to_owned()),
            modes: vec![DistributionMode::Cargo, DistributionMode::Cli],
        },
        CatalogEntry {
            name: "use-math".to_owned(),
            kind: "facade crate".to_owned(),
            set: "use-math".to_owned(),
            docs_url: "https://rustuse.org/use-math/".to_owned(),
            api_docs_url: "https://rustuse.org/api/use-math/".to_owned(),
            workspace_docs_url: Some("https://rustuse.org/api/workspaces/use-math/".to_owned()),
            modes: vec![DistributionMode::Cargo, DistributionMode::Cli],
        },
        CatalogEntry {
            name: "use-slug".to_owned(),
            kind: "child crate".to_owned(),
            set: "use-text".to_owned(),
            docs_url: "https://rustuse.org/use-text/use-slug/".to_owned(),
            api_docs_url: "https://rustuse.org/api/use-slug/".to_owned(),
            workspace_docs_url: None,
            modes: vec![DistributionMode::Cargo, DistributionMode::Cli],
        },
    ];
    assert(entry_views(entries@) =~= generated_view());
    entries
}

/// Sorts `source` by name and keeps only the first entry of each name.
pub fn sort_dedup_by_name(source: Vec<CatalogEntry>) -> (index: Vec<CatalogEntry>)
    ensures
        is_name_index_of(entry_views(index@), entry_views(source@)),
{
    let ghost src = entry_views(source@);
    let total: usize = source.len();
    let mut rest = source;
    let mut out: Vec<CatalogEntry> = Vec::new();
    let mut taken: usize = 0;
    while rest.len() > 0
        invariant
            taken + rest.len() == src.len(),
            src.len() == total,
            entry_views(rest@) == src.subrange(taken as int, src.len() as int),
            strictly_sorted_by_name(entry_views(out@)),
            forall|j: int| 0 <= j < out.len() ==> has_entry(src, #[trigger] entry_views(out@)[j]),
            forall|k: int| 0 <= k < taken ==> has_name(entry_views(out@), #[trigger] src[k].name),
        decreases rest.len(),
    {
        let ghost before = rest@;
        let e = rest.remove(0);
        let ghost outv = entry_views(out@);
        assert(entry_views(before)[0] == src[taken as int]);
        assert(e@ == src[taken as int]);
        assert(entry_views(rest@) =~= src.subrange(taken + 1, src.len() as int)) by {
            assert(rest@ =~= before.subrange(1, before.len() as int));
            assert forall|i: int| 0 <= i < rest@.len() implies entry_views(rest@)[i] == src[taken + 1 + i] by {
                assert(entry_views(before)[i + 1] == src[taken + 1 + i]);
            }
        }
        let mut p: usize = 0;
        while p < out.len() && text_less(out[p].name.as_str(), e.name.as_str())
            invariant
                p <= out.len(),
                outv == entry_views(out@),
                forall|q: int| 0 <= q < p ==> seq_lt(#[trigger] outv[q].name, e.name@),
            decreases out.len() - p,
        {
            p = p + 1;
        }
        if p < out.len() && str_eq(out[p].name.as_str(), e.name.as_str()) {
            assert(outv[p as int].name == src[taken as int].name);
        } else {
            proof {
                if p < out.len() {
                    lemma_seq_lt_total(outv[p as int].name, e.name@);
                }
                assert forall|q: int| p <= q < outv.len() implies seq_lt(e.name@, #[trigger] outv[q].name) by {
                    if q > p {
                        lemma_seq_lt_transitive(e.name@, outv[p as int].name, outv[q].name);
                    }
                }
            }
            out.insert(p, e);
            proof {
                let nv = entry_views(out@);
                assert(nv =~= outv.insert(p as int, e@));
                assert forall|i: int, j: int| 0 <= i < j < nv.len() implies seq_lt(#[trigger] nv[i].name, #[trigger] nv[j].name) by {
                    if i < p && j == p {
                    } else if i < p && j > p {
                        assert(nv[j] == outv[j - 1]);
                    } else if i == p {
                        assert(nv[j] == outv[j - 1]);
                    } else if i > p {
                        assert(nv[i] == outv[i - 1]);
                        assert(nv[j] == outv[j - 1]);
                    }
                }
                assert forall|j: int| 0 <= j < nv.len() implies has_entry(src, #[trigger] nv[j]) by {
                    if j < p {
                        assert(nv[j] == outv[j]);
                    } else if j == p {
                        assert(src[taken as int] == nv[j]);
                    } else {
                        assert(nv[j] == outv[j - 1]);
                    }
                }
                assert forall|k: int| 0 <= k < taken implies has_name(nv, #[trigger] src[k].name) by {
                    let w = choose|w: int| 0 <= w < outv.len() && #[trigger] outv[w].name == src[k].name;
                    if w < p {
                        assert(nv[w] == outv[w]);
                    } else {
                        assert(nv[w + 1] == outv[w]);
                    }
                }
                assert(nv[p as int].name == src[taken as int].name);
            }
        }
        proof {
            let nv = entry_views(out@);
            assert forall|k: int| 0 <= k < taken + 1 implies has_name(nv, #[trigger] src[k].name) by {
                if k == taken {
                    if nv =~= outv {
                        assert(nv[p as int].name == src[k].name);
                    } else {
                        assert(nv[p as int].name == src[k].name);
                    }
                }
            }
        }
        taken = taken + 1;
    }
    out
}

/// Returns the catalog index: the built-in entries sorted by name, each
/// name once.
pub fn entries() -> (index: Vec<CatalogEntry>)
    ensures
        is_name_index_of(entry_views(index@), generated_view()),
{
    sort_dedup_by_name(generated_entries())
}

/// Returns every catalog entry, in index order.
pub fn all_entries() -> (index: Vec<CatalogEntry>)
    ensures
        is_name_index_of(entry_views(index@), generated_view()),
{
    entries()
}

/// The names of the built-in entries are pairwise distinct.
pub proof fn lemma_generated_names_distinct()
    ensures
        forall|i: int, j: int|
            0 <= i < j < generated_view().len() ==> #[trigger] generated_view()[i].name
                != #[trigger] generated_view()[j].name,
{
    reveal_strlit("use-geometry");
    reveal_strlit("use-combinatorics");
    reveal_strlit("use-math");
    reveal_strlit("use-slug");
    let g = generated_view();
    assert(g[0].name.len() != g[1].name.len());
    assert(g[0].name.len() != g[2].name.len());
    assert(g[0].name.len() != g[3].name.len());
    assert(g[1].name.len() != g[2].name.len());
    assert(g[1].name.len() != g[3].name.len());
    assert(g[2].name[4] != g[3].name[4]);
}

/// Finds the catalog entry whose name is exactly `name`.
pub fn find_by_name(name: &str) -> (found: Option<CatalogEntry>)
    ensures
        match found {
            Some(e) => e.name@ == name@ && has_entry(generated_view(), e@),
            None => !has_name(generated_view(), name@),
        },
{
    let mut index = entries();
    let ghost iv = entry_views(index@);
    let mut i: usize = 0;
    while i < index.len()
        invariant
            iv == entry_views(index@),
            is_name_index_of(iv, generated_view()),
            i <= index.len(),
            forall|k: int| 0 <= k < i ==> #[trigger] iv[k].name != name@,
        decreases index.len() - i,
    {
        if str_eq(index[i].name.as_str(), name) {
            let e = index.remove(i);
            assert(e@ == iv[i as int]);
            return Some(e);
        }
        i = i + 1;
    }
    proof {
        if has_name(generated_view(), name@) {
            let k = choose|k: int| 0 <= k < generated_view().len() && #[trigger] generated_view()[k].name == name@;
            assert(has_name(iv, generated_view()[k].name));
        }
    }
    None
}

/// Whether `e` matches the normalized query `query`.
pub fn matches_query(e: &CatalogEntry, query: &str) -> (r: bool)
    ensures
        r == entry_matches(e@, query@),
{
    if contains(e.name.as_str(), query) || contains(e.kind.as_str(), query) || contains(e.set.as_str(), query) {
        return true;
    }
    let mut m: usize = 0;
    while m < e.modes.len()
        invariant
            m <= e.modes.len(),
            forall|k: int| 0 <= k < m ==> !occurs_in(mode_label(#[trigger] e.modes@[k]), query@),
        decreases e.modes.len() - m,
    {
        if contains(e.modes[m].as_str(), query) {
            assert(occurs_in(mode_label(e@.modes[m as int]), query@));
            return true;
        }
        m = m + 1;
    }
    false
}

/// The entries of `index` that match `query`, in index order.
pub fn filter_matching(index: Vec<CatalogEntry>, query: &str) -> (found: Vec<CatalogEntry>)
    ensures
        entry_views(found@) == entry_views(index@).filter(matcher(query@)),
{
    let ghost all = entry_views(index@);
    let ghost pred = matcher(query@);
    let total: usize = index.len();
    let mut rest = index;
    let mut out: Vec<CatalogEntry> = Vec::new();
    let mut i: usize = 0;
    assert(all.take(0).filter(pred) =~= Seq::<EntryView>::empty()) by {
        reveal(Seq::filter);
    }
    while rest.len() > 0
        invariant
            total == all.len(),
            pred == matcher(query@),
            i + rest.len() == total,
            entry_views(rest@) == all.subrange(i as int, total as int),
            entry_views(out@) == all.take(i as int).filter(pred),
        decreases rest.len(),
    {
        let ghost before = rest@;
        let e = rest.remove(0);
        assert(entry_views(before)[0] == all[i as int]);
        assert(entry_views(rest@) =~= all.subrange(i + 1, total as int)) by {
            assert(rest@ =~= before.subrange(1, before.len() as int));
            assert forall|j: int| 0 <= j < rest@.len() implies entry_views(rest@)[j] == all[i + 1 + j] by {
                assert(entry_views(before)[j + 1] == all[i + 1 + j]);
            }
        }
        assert(all.take(i + 1) =~= all.take(i as int).push(e@));
        proof { all.take(i as int).lemma_filter_push(e@, pred); }
        assert(pred(e@) == entry_matches(e@, query@));
        if matches_query(&e, query) {
            let ghost ov = entry_views(out@);
            out.push(e);
            assert(entry_views(out@) =~= ov.push(all[i as int]));
        }
        i = i + 1;
    }
    assert(all.take(i as int) =~= all);
    out
}

/// Returns the catalog entries that match `query`.
///
/// The query is trimmed and ASCII lower-cased, then compared as a substring
/// against each entry's name, kind, set and distribution modes. A query that
/// is empty after trimming matches nothing.
pub fn search(query: &str) -> (found: Vec<CatalogEntry>)
    ensures
        normalized_query(query@).len() == 0 ==> found.len() == 0,
        normalized_query(query@).len() > 0 ==> exists|index: Seq<EntryView>|
            is_name_index_of(index, generated_view()) && entry_views(found@) == index.filter(
                matcher(normalized_query(query@)),
            ),
{
    let trimmed_query = trimmed(query);
    let q = ascii_lowercase(trimmed_query.as_str());
    if q.as_str().is_empty() {
        assert(q@.len() == 0);
        return Vec::new();
    }
    let index = entries();
    let ghost iv = entry_views(index@);
    let found = filter_matching(index, q.as_str());
    assert(is_name_index_of(iv, generated_view()));
    found
}

proof fn lemma_space_lower(c: char)
    ensures
        is_space(ascii_lower(c)) == is_space(c),
{
}

proof fn lemma_trim_start_lower(s: Seq<char>)
    ensures
        trim_start(lower(s)) == lower(trim_start(s)),
    decreases s.len(),
{
    if s.len() > 0 {
        lemma_space_lower(s[0]);
        if is_space(s[0]) {
            assert(lower(s).drop_first() =~= lower(s.drop_first()));
            lemma_trim_start_lower(s.drop_first());
        }
    } else {
        assert(lower(s) =~= s);
    }
}

proof fn lemma_trim_end_lower(s: Seq<char>)
    ensures
        trim_end(lower(s)) == lower(trim_end(s)),
    decreases s.len(),
{
    if s.len() > 0 {
        lemma_space_lower(s.last());
        if is_space(s.last()) {
            assert(lower(s).drop_last() =~= lower(s.drop_last()));
            lemma_trim_end_lower(s.drop_last());
        }
    } else {
        assert(lower(s) =~= s);
    }
}

/// Search ignores ASCII case: two queries that are equal once lower-cased
/// are normalised alike, so `search` finds the same entries for both.
pub proof fn lemma_search_case_insensitive(a: Seq<char>, b: Seq<char>)
    requires
        lower(a) == lower(b),
    ensures
        normalized_query(a) == normalized_query(b),
{
    lemma_trim_start_lower(a);
    lemma_trim_start_lower(b);
    lemma_trim_end_lower(trim_start(a));
    lemma_trim_end_lower(trim_start(b));
}

/// What a search finds, for every query that is not blank once trimmed:
/// exactly the catalog entries whose name, kind, set or one of whose
/// distribution modes contains the trimmed, lower-cased query.
pub proof fn lemma_search_membership(query: Seq<char>, found: Seq<EntryView>, e: EntryView)
    requires
        normalized_query(query).len() > 0,
        exists|index: Seq<EntryView>|
            is_name_index_of(index, generated_view()) && found == index.filter(matcher(normalized_query(query))),
    ensures
        found.contains(e) <==> {
            let q = lower(trim(query));
            &&& has_entry(generated_view(), e)
            &&& {
                ||| occurs_in(e.name, q)
                ||| occurs_in(e.kind, q)
                ||| occurs_in(e.set, q)
                ||| exists|m: int| 0 <= m < e.modes.len() && occurs_in(mode_label(#[trigger] e.modes[m]), q)
            }
        },
{
    let q = normalized_query(query);
    let gv = generated_view();
    let index = choose|index: Seq<EntryView>| is_name_index_of(index, gv) && found == index.filter(matcher(q));
    index.filter_lemma(matcher(q));
    if found.contains(e) {
        let i = choose|i: int| 0 <= i < found.len() && found[i] == e;
        assert(matcher(q)(found[i]));
        index.lemma_filter_contains_rev(matcher(q), e);
        let j = choose|j: int| 0 <= j < index.len() && index[j] == e;
        assert(has_entry(gv, index[j]));
    }
    if has_entry(gv, e) && entry_matches(e, q) {
        let k = choose|k: int| 0 <= k < gv.len() && #[trigger] gv[k] == e;
        assert(has_name(index, gv[k].name));
        let j = choose|j: int| 0 <= j < index.len() && #[trigger] index[j].name == gv[k].name;
        assert(has_entry(gv, index[j]));
        let m = choose|m: int| 0 <= m < gv.len() && #[trigger] gv[m] == index[j];
        lemma_generated_names_distinct();
        if m != k {
            if m < k {
                assert(gv[m].name != gv[k].name);
            } else {
                assert(gv[k].name != gv[m].name);
            }
        }
        assert(index[j] == e);
        index.lemma_filter_contains(matcher(q), j);
    }
}

} // verus!
