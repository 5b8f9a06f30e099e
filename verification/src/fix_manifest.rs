//! Facade manifest repair: the child crates a repair wires in, and the
//! repairs of the workspace shape, the workspace dependencies, the package
//! metadata and the facade wiring, each stated by what the repaired
//! manifest reads.

use vstd::prelude::*;
use vstd::multiset::Multiset;
use vstd::string::{StrSliceExecFns, StringExecFns};

use crate::config::{ensure_trailing_newline, with_trailing_newline};
use crate::manifest_facade::{
    child_dependency_issue, child_dependency_list_issues, child_feature_issue, child_feature_list_issues, child_feature_name,
    facade_wiring_issues, feature_name_for_child_crate, full_feature_names,
};
use crate::manifest_model::IssueView;
use crate::text::{
    cat2, cat3, cat4, lemma_differ_at, lemma_differ_len, lemma_seq_lt_irreflexive, lemma_seq_lt_transitive, seq_lt, str_eq, text_less, trim, trimmed,
};
use crate::toml_edit::{
    apply_lint_defaults, apply_string_defaults, distinct_keys, get_in, is_bool, is_lint_table, is_str, is_str_array, is_workspace_marker,
    key_views, kept_or, lint_defaults_ok, pair_keys, remove_key, set_bool_if_missing, set_string, set_string_array,
    set_string_array_if_missing, set_string_if_missing, set_value, set_workspace_true, string_defaults_ok, table_in,
    take_table, unchanged_except,
};
use crate::toml_tree::{value_well_keyed, well_keyed, get, get_array, get_str, get_table, parse_toml_document, render_toml_document, toml_parse_outcome, toml_render_outcome, TomlTable, TomlValue};

verus! {

broadcast use vstd::seq_lib::group_to_multiset_ensures;

/// The version a child crate without one is given.
pub const DEFAULT_PACKAGE_VERSION: &'static str = "0.1.0";

/// What a repair knows of one child crate.
#[derive(Clone, Debug)]
pub struct CrateInfo {
    pub dir_name: String,
    pub package_name: String,
    pub version: Option<String>,
    pub manifest_path: String,
}

/// The content of a child crate's facts.
pub struct CrateInfoView {
    pub dir_name: Seq<char>,
    pub package_name: Seq<char>,
    pub version: Option<Seq<char>>,
    pub manifest_path: Seq<char>,
}

impl View for CrateInfo {
    type V = CrateInfoView;

    open spec fn view(&self) -> CrateInfoView {
        CrateInfoView {
            dir_name: self.dir_name@,
            package_name: self.package_name@,
            version: match self.version {
                Some(v) => Some(v@),
                None => None,
            },
            manifest_path: self.manifest_path@,
        }
    }
}

/// The views of a sequence of crate facts.
pub open spec fn info_views(s: Seq<CrateInfo>) -> Seq<CrateInfoView> {
    s.map_values(|c: CrateInfo| c@)
}

/// The version a repair gives a crate: its own, else the default.
pub open spec fn effective_version(c: CrateInfoView) -> Seq<char> {
    match c.version {
        Some(v) => v,
        None => DEFAULT_PACKAGE_VERSION@,
    }
}

impl CrateInfo {
    /// The crate's dependency name: its package name.
    pub fn dependency_name(&self) -> (name: &str)
        ensures
            name@ == self.package_name@,
    {
        self.package_name.as_str()
    }

    /// The crate's feature name: its package name without `use-`.
    pub fn feature_name(&self) -> (name: String)
        ensures
            name@ == child_feature_name(self.package_name@),
    {
        feature_name_for_child_crate(self.package_name.as_str())
    }

    /// The crate's version, or the default one.
    pub fn effective_version(&self) -> (v: &str)
        ensures
            v@ == effective_version(self@),
    {
        match &self.version {
            Some(v) => v.as_str(),
            None => DEFAULT_PACKAGE_VERSION,
        }
    }
}

/// What reading a manifest for repair gives: an empty document for blank
/// text, else the parsed document or the error.
pub open spec fn parse_manifest_ok(path: Seq<char>, contents: Seq<char>, r: Result<TomlTable, String>) -> bool {
    if trim(contents).len() == 0 {
        r matches Ok(t) && t.entries@.len() == 0
    } else {
        match toml_parse_outcome(contents) {
            Ok(doc) => r == Ok::<TomlTable, String>(doc),
            Err(e) => r matches Err(m) && m@ == "failed to parse `"@ + path + "`: "@ + e,
        }
    }
}

/// Parses a manifest for repair; blank text is an empty document.
pub fn parse_manifest(path: &str, contents: &str) -> (r: Result<TomlTable, String>)
    ensures
        parse_manifest_ok(path@, contents@, r),
        r matches Ok(t) ==> well_keyed(t),
{
    let t = trimmed(contents);
    if t.as_str().unicode_len() == 0 {
        return Ok(TomlTable::new());
    }
    match parse_toml_document(contents) {
        Ok(doc) => Ok(doc),
        Err(e) => Err(cat4("failed to parse `", path, "`: ", e.as_str())),
    }
}

/// What rendering a repaired manifest gives: its text ending in a line
/// break, or the error.
pub open spec fn render_manifest_ok(path: Seq<char>, doc: TomlTable, r: Result<String, String>) -> bool {
    match toml_render_outcome(doc) {
        Ok(s) => r matches Ok(out) && out@ == with_trailing_newline(s),
        Err(e) => r matches Err(m) && m@ == "failed to render `"@ + path + "`: "@ + e,
    }
}

/// Renders a repaired manifest.
pub fn render_manifest(path: &str, doc: &TomlTable) -> (r: Result<String, String>)
    ensures
        render_manifest_ok(path@, *doc, r),
{
    match render_toml_document(doc) {
        Ok(s) => Ok(ensure_trailing_newline(s)),
        Err(e) => Err(cat4("failed to render `", path, "`: ", e.as_str())),
    }
}

/// A child crate directory under `crates/` that holds a `Cargo.toml`, with
/// the manifest's text.
#[derive(Clone, Debug)]
pub struct ChildSource {
    pub dir_name: String,
    pub manifest_path: String,
    pub contents: String,
}

/// The package table a manifest text gives, where it parses.
pub open spec fn source_package(c: ChildSource) -> Option<TomlTable> {
    if trim(c.contents@).len() == 0 {
        None
    } else {
        match toml_parse_outcome(c.contents@) {
            Ok(doc) => get_table(doc, "package"@),
            Err(_) => None,
        }
    }
}

/// Whether the manifest text of a child fails to parse.
pub open spec fn source_fails(c: ChildSource) -> bool {
    trim(c.contents@).len() > 0 && toml_parse_outcome(c.contents@) is Err
}

/// The facts of a child crate: its package name (its directory name where
/// the manifest names none) and version.
pub open spec fn source_info(c: ChildSource) -> CrateInfoView {
    CrateInfoView {
        dir_name: c.dir_name@,
        package_name: match source_package(c) {
            Some(p) => match get_str(p, "name"@) {
                Some(n) => n,
                None => c.dir_name@,
            },
            None => c.dir_name@,
        },
        version: match source_package(c) {
            Some(p) => get_str(p, "version"@),
            None => None,
        },
        manifest_path: c.manifest_path@,
    }
}

/// The facts of the children other than the facade itself, in input order.
pub open spec fn included_infos(cs: Seq<ChildSource>, facade: Seq<char>) -> Seq<CrateInfoView>
    decreases cs.len(),
{
    if cs.len() == 0 {
        seq![]
    } else {
        let i = source_info(cs.last());
        included_infos(cs.drop_last(), facade) + if i.dir_name == facade || i.package_name == facade {
            seq![]
        } else {
            seq![i]
        }
    }
}

/// The order of child crates: by package name, then directory name.
pub open spec fn crate_precedes(a: CrateInfoView, b: CrateInfoView) -> bool {
    seq_lt(a.package_name, b.package_name) || (a.package_name == b.package_name && seq_lt(a.dir_name, b.dir_name))
}

/// Whether no crate of `s` is followed by one that precedes it.
pub open spec fn crates_sorted(s: Seq<CrateInfoView>) -> bool {
    forall|i: int, j: int| 0 <= i < j < s.len() ==> !crate_precedes(#[trigger] s[j], #[trigger] s[i])
}

proof fn lemma_crate_precedes_order(a: CrateInfoView, b: CrateInfoView, c: CrateInfoView)
    ensures
        !crate_precedes(a, a),
        crate_precedes(a, b) && crate_precedes(b, c) ==> crate_precedes(a, c),
{
    lemma_seq_lt_irreflexive(a.package_name);
    lemma_seq_lt_irreflexive(a.dir_name);
    if crate_precedes(a, b) && crate_precedes(b, c) {
        if seq_lt(a.package_name, b.package_name) && seq_lt(b.package_name, c.package_name) {
            lemma_seq_lt_transitive(a.package_name, b.package_name, c.package_name);
        }
        if seq_lt(a.dir_name, b.dir_name) && seq_lt(b.dir_name, c.dir_name) {
            lemma_seq_lt_transitive(a.dir_name, b.dir_name, c.dir_name);
        }
    }
}

fn crate_less(a: &CrateInfo, b: &CrateInfo) -> (r: bool)
    ensures
        r == crate_precedes(a@, b@),
{
    if text_less(a.package_name.as_str(), b.package_name.as_str()) {
        return true;
    }
    if !str_eq(a.package_name.as_str(), b.package_name.as_str()) {
        return false;
    }
    text_less(a.dir_name.as_str(), b.dir_name.as_str())
}

/// Whether two crates have the same package name and directory name.
pub open spec fn same_crate_key(a: CrateInfoView, b: CrateInfoView) -> bool {
    a.package_name == b.package_name && a.dir_name == b.dir_name
}

proof fn lemma_crate_precedes_total(a: CrateInfoView, b: CrateInfoView)
    ensures
        crate_precedes(a, b) || crate_precedes(b, a) || same_crate_key(a, b),
{
    crate::text::lemma_seq_lt_total(a.package_name, b.package_name);
    crate::text::lemma_seq_lt_total(a.dir_name, b.dir_name);
}

/// Whether `order` lists the indices of `crates` by package name, then
/// directory name, crates that tie in the order in which they come.
pub open spec fn stable_crate_order(crates: Seq<CrateInfoView>, order: Seq<usize>) -> bool {
    &&& order.len() == crates.len()
    &&& forall|k: int| 0 <= k < order.len() ==> order[k] < crates.len()
    &&& forall|i: int, j: int| #![trigger order[i], order[j]] 0 <= i < j < order.len() ==> {
        ||| crate_precedes(crates[order[i] as int], crates[order[j] as int])
        ||| same_crate_key(crates[order[i] as int], crates[order[j] as int]) && order[i] < order[j]
    }
}

/// Sorts crates by package name, then directory name, keeping the order of
/// crates that tie.
pub fn sort_crates(crates: Vec<CrateInfo>) -> (sorted: Vec<CrateInfo>)
    ensures
        crates_sorted(info_views(sorted@)),
        info_views(sorted@).to_multiset() == info_views(crates@).to_multiset(),
        exists|order: Seq<usize>| {
            &&& stable_crate_order(info_views(crates@), order)
            &&& info_views(sorted@) == order.map_values(|k: usize| info_views(crates@)[k as int])
        },
{
    let ghost original = info_views(crates@);
    let mut pending = crates;
    let mut sorted: Vec<CrateInfo> = Vec::new();
    let ghost mut idx: Seq<usize> = seq![];
    assert(info_views(pending@) =~= original);
    while pending.len() > 0
        invariant
            crates_sorted(info_views(sorted@)),
            info_views(sorted@).to_multiset().add(info_views(pending@).to_multiset()) == original.to_multiset(),
            sorted@.len() + pending@.len() == original.len(),
            info_views(pending@) == original.subrange(sorted@.len() as int, original.len() as int),
            idx.len() == sorted@.len(),
            forall|k: int| #![trigger idx[k]] 0 <= k < idx.len() ==> idx[k] < sorted@.len() && info_views(sorted@)[k] == original[idx[k] as int],
            forall|i: int, j: int| #![trigger idx[i], idx[j]] 0 <= i < j < idx.len() ==> {
                ||| crate_precedes(original[idx[i] as int], original[idx[j] as int])
                ||| same_crate_key(original[idx[i] as int], original[idx[j] as int]) && idx[i] < idx[j]
            },
        decreases pending.len(),
    {
        let ghost before = info_views(pending@);
        let ghost n = sorted@.len();
        let item = pending.remove(0);
        proof {
            assert(info_views(pending@) =~= before.remove(0));
            vstd::seq_lib::to_multiset_remove(before, 0);
            assert(item@ == original[n as int]);
            assert(info_views(pending@) =~= original.subrange(n + 1int, original.len() as int));
        }
        let ghost sv = info_views(sorted@);
        let mut pos: usize = 0;
        let mut found = false;
        while pos < sorted.len() && !found
            invariant
                pos <= sorted.len(),
                sv == info_views(sorted@),
                forall|k: int| 0 <= k < pos ==> !crate_precedes(item@, #[trigger] sv[k]),
                found ==> pos < sorted.len() && crate_precedes(item@, sv[pos as int]),
            decreases sorted.len() - pos + if found { 0int } else { 1int },
        {
            if crate_less(&item, &sorted[pos]) {
                found = true;
            } else {
                pos = pos + 1;
            }
        }
        let ghost old_idx = idx;
        proof {
            assert forall|k: int| pos <= k < sv.len() implies crate_precedes(item@, #[trigger] sv[k]) by {
                if k > pos {
                    assert(!crate_precedes(sv[k], sv[pos as int]));
                    lemma_crate_precedes_total(sv[k], sv[pos as int]);
                    lemma_crate_precedes_order(item@, sv[pos as int], sv[k]);
                }
            }
            assert forall|k: int| pos <= k < sv.len() implies !crate_precedes(#[trigger] sv[k], item@) by {
                lemma_crate_precedes_order(sv[k], item@, sv[k]);
                lemma_crate_precedes_order(sv[k], sv[k], sv[k]);
            }
            vstd::seq_lib::to_multiset_insert(sv, pos as int, item@);
            idx = old_idx.insert(pos as int, n as usize);
        }
        let ghost iv = item@;
        sorted.insert(pos, item);
        proof {
            let s = info_views(sorted@);
            assert(s =~= sv.insert(pos as int, iv));
            assert forall|i: int, j: int| 0 <= i < j < s.len() implies !crate_precedes(#[trigger] s[j], #[trigger] s[i]) by {
                if j < pos {
                    assert(s[i] == sv[i] && s[j] == sv[j]);
                } else if j == pos {
                    assert(s[i] == sv[i]);
                } else if i == pos {
                    assert(s[j] == sv[j - 1]);
                } else if i < pos {
                    assert(s[i] == sv[i] && s[j] == sv[j - 1]);
                } else {
                    assert(s[i] == sv[i - 1] && s[j] == sv[j - 1]);
                }
            }
            assert forall|k: int| #![trigger idx[k]] 0 <= k < idx.len() implies idx[k] < s.len() && s[k] == original[idx[k] as int] by {
                if k < pos {
                    assert(idx[k] == old_idx[k] && s[k] == sv[k]);
                } else if k > pos {
                    assert(idx[k] == old_idx[k - 1] && s[k] == sv[k - 1]);
                } else {
                    assert(idx[k] == n as usize);
                }
            }
            assert forall|i: int, j: int| #![trigger idx[i], idx[j]] 0 <= i < j < idx.len() implies {
                ||| crate_precedes(original[idx[i] as int], original[idx[j] as int])
                ||| same_crate_key(original[idx[i] as int], original[idx[j] as int]) && idx[i] < idx[j]
            } by {
                if j < pos {
                    assert(idx[i] == old_idx[i] && idx[j] == old_idx[j]);
                } else if j == pos {
                    assert(idx[i] == old_idx[i] && s[i] == sv[i]);
                    assert(!crate_precedes(iv, sv[i]));
                    lemma_crate_precedes_total(iv, sv[i]);
                } else if i == pos {
                    assert(idx[j] == old_idx[j - 1] && s[j] == sv[j - 1]);
                    assert(crate_precedes(iv, sv[j - 1]));
                } else if i < pos {
                    assert(idx[i] == old_idx[i] && idx[j] == old_idx[j - 1]);
                } else {
                    assert(idx[i] == old_idx[i - 1] && idx[j] == old_idx[j - 1]);
                }
            }
            assert(before.to_multiset() == info_views(pending@).to_multiset().insert(iv));
            assert(s.to_multiset().add(info_views(pending@).to_multiset()) =~= sv.to_multiset().add(before.to_multiset()));
        }
    }
    proof {
        assert(info_views(pending@) =~= Seq::<CrateInfoView>::empty());
        assert(info_views(pending@).to_multiset() =~= Multiset::<CrateInfoView>::empty());
        assert(info_views(sorted@).to_multiset().add(Multiset::<CrateInfoView>::empty()) =~= info_views(sorted@).to_multiset());
        assert(idx.len() == original.len());
        assert forall|k: int| #![trigger idx[k]] 0 <= k < idx.len() implies idx[k] < original.len() by {}
        assert(info_views(sorted@) =~= idx.map_values(|k: usize| original[k as int]));
        assert(stable_crate_order(original, idx));
    }
    sorted
}

/// The first child, in input order, whose manifest does not parse.
pub open spec fn first_failing(cs: Seq<ChildSource>) -> int
    decreases cs.len(),
{
    if cs.len() == 0 {
        -1
    } else if source_fails(cs[0]) {
        0
    } else {
        let r = first_failing(cs.drop_first());
        if r < 0 { -1 } else { r + 1 }
    }
}

/// The facts of the child crates a repair wires in, sorted by package name
/// then directory: every child except one whose directory or package has
/// the facade's name. A manifest that does not parse is refused.
pub fn discover_child_crates(children: &Vec<ChildSource>, facade_name: &str) -> (r: Result<Vec<CrateInfo>, String>)
    ensures
        match r {
            Ok(v) => first_failing(children@) < 0 && crates_sorted(info_views(v@))
                && info_views(v@).to_multiset() == included_infos(children@, facade_name@).to_multiset()
                && exists|order: Seq<usize>| stable_crate_order(included_infos(children@, facade_name@), order)
                    && info_views(v@) == order.map_values(|k: usize| included_infos(children@, facade_name@)[k as int]),
            Err(e) => first_failing(children@) >= 0 && first_failing(children@) < children@.len()
                && e@ == "failed to parse `"@ + children@[first_failing(children@)].manifest_path@ + "`: "@
                    + toml_parse_outcome(children@[first_failing(children@)].contents@)->Err_0,
        },
{
    let mut found: Vec<CrateInfo> = Vec::new();
    let mut i: usize = 0;
    assert(children@.skip(0) =~= children@);
    while i < children.len()
        invariant
            i <= children.len(),
            info_views(found@) == included_infos(children@.take(i as int), facade_name@),
            first_failing(children@) == if first_failing(children@.skip(i as int)) < 0 {
                -1
            } else {
                first_failing(children@.skip(i as int)) + i
            },
        decreases children.len() - i,
    {
        let child = &children[i];
        assert(children@.take(i + 1).drop_last() =~= children@.take(i as int));
        assert(children@.skip(i as int)[0] == children@[i as int]);
        assert(children@.skip(i as int).drop_first() =~= children@.skip(i + 1));
        let doc = match parse_manifest(child.manifest_path.as_str(), child.contents.as_str()) {
            Ok(doc) => doc,
            Err(e) => {
                return Err(e);
            },
        };
        let ghost src = children@[i as int];
        let ghost pkg = get_table(doc, "package"@);
        assert(pkg == source_package(src)) by {
            if trim(src.contents@).len() == 0 {
                crate::toml_tree::lemma_first_index(doc.entries@, "package"@);
            }
        }
        let mut package_name = child.dir_name.clone();
        let mut version: Option<String> = None;
        if let Some(p) = doc.get_table("package") {
            if let Some(n) = p.get_str("name") {
                package_name = n.clone();
            }
            if let Some(v) = p.get_str("version") {
                version = Some(v.clone());
            }
        }
        let info = CrateInfo {
            dir_name: child.dir_name.clone(),
            package_name,
            version,
            manifest_path: child.manifest_path.clone(),
        };
        assert(info@ == source_info(src));
        let ghost before = info_views(found@);
        if !str_eq(info.dir_name.as_str(), facade_name) && !str_eq(info.package_name.as_str(), facade_name) {
            found.push(info);
            assert(info_views(found@) =~= before.push(source_info(src)));
        }
        assert(info_views(found@) =~= included_infos(children@.take(i + 1), facade_name@));
        i = i + 1;
    }
    assert(children@.take(i as int) =~= children@);
    assert(children@.skip(i as int) =~= Seq::<ChildSource>::empty());
    Ok(sort_crates(found))
}

/// The lint groups a workspace's clippy table enables.
pub open spec fn clippy_group_keys() -> Seq<&'static str> {
    seq!["all", "cargo", "nursery", "pedantic"]
}

/// The single clippy lints a workspace sets, with their levels.
pub open spec fn clippy_lint_levels() -> Seq<(&'static str, &'static str)> {
    seq![
        ("derivable_impls", "allow"),
        ("doc_markdown", "allow"),
        ("expect_used", "warn"),
        ("missing_const_for_fn", "allow"),
        ("missing_errors_doc", "allow"),
        ("module_name_repetitions", "allow"),
        ("multiple_crate_versions", "allow"),
        ("must_use_candidate", "allow"),
        ("return_self_not_must_use", "allow"),
        ("todo", "deny"),
        ("unimplemented", "deny"),
        ("unwrap_used", "warn"),
    ]
}

/// Whether a repaired clippy table keeps every lint it had and adds the
/// missing ones: the groups at `warn` with priority -1, then the single
/// lints at their levels.
pub open spec fn clippy_ok(old: Option<TomlTable>, c: TomlTable) -> bool {
    &&& lint_defaults_ok(old, c, clippy_group_keys(), "warn"@, -1i64)
    &&& string_defaults_ok(old, c, clippy_lint_levels())
    &&& unchanged_except(old, c, key_views(clippy_group_keys()) + pair_keys(clippy_lint_levels()))
}

/// Adds the missing workspace clippy lints.
pub fn repair_workspace_clippy_lints(clippy: &mut TomlTable)
    ensures
        clippy_ok(Some(*old(clippy)), *final(clippy)),
        well_keyed(*old(clippy)) ==> well_keyed(*final(clippy)),
{
    let groups: Vec<&'static str> = vec!["all", "cargo", "nursery", "pedantic"];
    let levels: Vec<(&'static str, &'static str)> = vec![
        ("derivable_impls", "allow"),
        ("doc_markdown", "allow"),
        ("expect_used", "warn"),
        ("missing_const_for_fn", "allow"),
        ("missing_errors_doc", "allow"),
        ("module_name_repetitions", "allow"),
        ("multiple_crate_versions", "allow"),
        ("must_use_candidate", "allow"),
        ("return_self_not_must_use", "allow"),
        ("todo", "deny"),
        ("unimplemented", "deny"),
        ("unwrap_used", "warn"),
    ];
    assert(groups@ =~= clippy_group_keys());
    assert(levels@ =~= clippy_lint_levels());
    let ghost gk = key_views(clippy_group_keys());
    let ghost lk = pair_keys(clippy_lint_levels());
    proof {
        lemma_clippy_keys_distinct();
    }
    let ghost start = *clippy;
    apply_lint_defaults(clippy, &groups, "warn", -1);
    let ghost mid = *clippy;
    apply_string_defaults(clippy, &levels);
    proof {
        assert forall|i: int| 0 <= i < clippy_group_keys().len() implies kept_or(Some(start), *clippy, (#[trigger] clippy_group_keys()[i])@,
            is_lint_table(get(*clippy, clippy_group_keys()[i]@), "warn"@, -1i64)) by {
            assert(gk[i] == clippy_group_keys()[i]@);
            assert(!lk.contains(gk[i]));
            assert(get(*clippy, gk[i]) == get(mid, gk[i]));
        }
        assert forall|i: int| 0 <= i < clippy_lint_levels().len() implies kept_or(Some(start), *clippy, (#[trigger] clippy_lint_levels()[i]).0@,
            is_str(get(*clippy, clippy_lint_levels()[i].0@), clippy_lint_levels()[i].1@)) by {
            assert(lk[i] == clippy_lint_levels()[i].0@);
            assert(!gk.contains(lk[i]));
            assert(get(mid, lk[i]) == get(start, lk[i]));
        }
        assert forall|k: Seq<char>| !(gk + lk).contains(k) implies #[trigger] get(*clippy, k) == get(start, k) by {
            if gk.contains(k) {
                let w = choose|w: int| 0 <= w < gk.len() && gk[w] == k;
                assert((gk + lk)[w] == k);
            }
            if lk.contains(k) {
                let w = choose|w: int| 0 <= w < lk.len() && lk[w] == k;
                assert((gk + lk)[gk.len() + w] == k);
            }
        }
    }
}

/// The clippy keys are pairwise distinct, within and across the two lists.
proof fn lemma_clippy_keys_distinct()
    ensures
        distinct_keys(key_views(clippy_group_keys())),
        distinct_keys(pair_keys(clippy_lint_levels())),
        forall|k: Seq<char>| key_views(clippy_group_keys()).contains(k) ==> !pair_keys(clippy_lint_levels()).contains(k),
{
    reveal_strlit("all");
    reveal_strlit("cargo");
    reveal_strlit("nursery");
    reveal_strlit("pedantic");
    reveal_strlit("derivable_impls");
    reveal_strlit("doc_markdown");
    reveal_strlit("expect_used");
    reveal_strlit("missing_const_for_fn");
    reveal_strlit("missing_errors_doc");
    reveal_strlit("module_name_repetitions");
    reveal_strlit("multiple_crate_versions");
    reveal_strlit("must_use_candidate");
    reveal_strlit("return_self_not_must_use");
    reveal_strlit("todo");
    reveal_strlit("unimplemented");
    reveal_strlit("unwrap_used");
    let gk = key_views(clippy_group_keys());
    let lk = pair_keys(clippy_lint_levels());
    assert(gk =~= seq!["all"@, "cargo"@, "nursery"@, "pedantic"@]);
    assert(lk =~= seq![
        "derivable_impls"@,
        "doc_markdown"@,
        "expect_used"@,
        "missing_const_for_fn"@,
        "missing_errors_doc"@,
        "module_name_repetitions"@,
        "multiple_crate_versions"@,
        "must_use_candidate"@,
        "return_self_not_must_use"@,
        "todo"@,
        "unimplemented"@,
        "unwrap_used"@,
    ]);
    assert forall|i: int, j: int| 0 <= i < j < gk.len() implies #[trigger] gk[i] != #[trigger] gk[j] by {
        assert(gk[i][0] != gk[j][0]);
    }
    assert forall|i: int, j: int| 0 <= i < j < lk.len() implies #[trigger] lk[i] != #[trigger] lk[j] by {
        if lk[i].len() == lk[j].len() {
            if lk[i][0] == lk[j][0] {
                assert(lk[i][2] != lk[j][2] || lk[i][8] != lk[j][8] || lk[i][3] != lk[j][3]);
            }
        }
    }
    assert forall|k: Seq<char>| gk.contains(k) implies !lk.contains(k) by {
        let w = choose|w: int| 0 <= w < gk.len() && gk[w] == k;
        if lk.contains(k) {
            let v = choose|v: int| 0 <= v < lk.len() && lk[v] == k;
            assert(gk[w].len() != lk[v].len() || gk[w][0] != lk[v][0]);
        }
    }
}

/// The repository URL of a facade.
pub open spec fn facade_repository_url(facade: Seq<char>) -> Seq<char> {
    "https://github.com/RustUse/"@ + facade
}

/// The keys a workspace package repair touches.
pub open spec fn workspace_package_keys() -> Seq<Seq<char>> {
    seq!["authors"@, "edition"@, "license"@, "rust-version"@, "repository"@, "categories"@]
}

/// Whether a repaired `[workspace.package]` keeps what it had and adds the
/// missing defaults, with the facade's repository.
pub open spec fn workspace_package_ok(old: Option<TomlTable>, p: TomlTable, facade: Seq<char>) -> bool {
    &&& kept_or(old, p, "authors"@, is_str_array(get(p, "authors"@), seq!["RustUse Contributors"@]))
    &&& kept_or(old, p, "edition"@, is_str(get(p, "edition"@), "2024"@))
    &&& kept_or(old, p, "license"@, is_str(get(p, "license"@), "MIT OR Apache-2.0"@))
    &&& kept_or(old, p, "rust-version"@, is_str(get(p, "rust-version"@), "1.95.0"@))
    &&& is_str(get(p, "repository"@), facade_repository_url(facade))
    &&& kept_or(old, p, "categories"@, is_str_array(get(p, "categories"@), seq!["data-structures"@, "development-tools"@]))
    &&& unchanged_except(old, p, workspace_package_keys())
}

/// Whether a repaired `[workspace.lints]` forbids unsafe code and has the
/// clippy lints.
pub open spec fn workspace_lints_ok(old: Option<TomlTable>, l: TomlTable) -> bool {
    &&& match get_table(l, "rust"@) {
        Some(r) => is_str(get(r, "unsafe_code"@), "forbid"@) && unchanged_except(table_in(old, "rust"@), r, seq!["unsafe_code"@]),
        None => false,
    }
    &&& match get_table(l, "clippy"@) {
        Some(c) => clippy_ok(table_in(old, "clippy"@), c),
        None => false,
    }
    &&& unchanged_except(old, l, seq!["rust"@, "clippy"@])
}

/// The keys a workspace shape repair touches.
pub open spec fn workspace_shape_keys() -> Seq<Seq<char>> {
    seq!["members"@, "default-members"@, "resolver"@, "package"@, "lints"@]
}

/// Whether a repaired `[workspace]` has the standard members, resolver,
/// package defaults and lints, and keeps everything else.
pub open spec fn workspace_shape_ok(old: Option<TomlTable>, ws: TomlTable, facade: Seq<char>) -> bool {
    &&& is_str_array(get(ws, "members"@), seq!["crates/*"@])
    &&& is_str_array(get(ws, "default-members"@), seq!["."@])
    &&& is_str(get(ws, "resolver"@), "3"@)
    &&& match get_table(ws, "package"@) {
        Some(p) => workspace_package_ok(table_in(old, "package"@), p, facade),
        None => false,
    }
    &&& match get_table(ws, "lints"@) {
        Some(l) => workspace_lints_ok(table_in(old, "lints"@), l),
        None => false,
    }
    &&& unchanged_except(old, ws, workspace_shape_keys())
}

/// Whether `new` is `old` with its workspace shape repaired.
pub open spec fn shape_repaired(old: TomlTable, new: TomlTable, facade: Seq<char>) -> bool {
    &&& unchanged_except(Some(old), new, seq!["workspace"@])
    &&& match get_table(new, "workspace"@) {
        Some(ws) => workspace_shape_ok(get_table(old, "workspace"@), ws, facade),
        None => false,
    }
}

fn repair_workspace_package(p: &mut TomlTable, facade_name: &str)
    ensures
        workspace_package_ok(Some(*old(p)), *final(p), facade_name@),
        well_keyed(*old(p)) ==> well_keyed(*final(p)),
{
    proof {
        reveal_strlit("authors");
        reveal_strlit("edition");
        reveal_strlit("license");
        reveal_strlit("rust-version");
        reveal_strlit("repository");
        reveal_strlit("categories");
    }
    let ghost start = *p;
    set_string_array_if_missing(p, "authors", &vec!["RustUse Contributors"]);
    set_string_if_missing(p, "edition", "2024");
    set_string_if_missing(p, "license", "MIT OR Apache-2.0");
    set_string_if_missing(p, "rust-version", "1.95.0");
    let url = cat2("https://github.com/RustUse/", facade_name);
    set_string(p, "repository", url.as_str());
    set_string_array_if_missing(p, "categories", &vec!["data-structures", "development-tools"]);
    proof {
        assert(seq!["RustUse Contributors"].map_values(|s: &str| s@) =~= seq!["RustUse Contributors"@]);
        assert(seq!["data-structures", "development-tools"].map_values(|s: &str| s@) =~= seq!["data-structures"@, "development-tools"@]);
        lemma_differ_at("authors"@, "edition"@, 0);
        lemma_differ_at("authors"@, "license"@, 0);
        lemma_differ_at("authors"@, "rust-version"@, 0);
        lemma_differ_at("authors"@, "repository"@, 0);
        lemma_differ_at("authors"@, "categories"@, 0);
        lemma_differ_at("edition"@, "license"@, 0);
        lemma_differ_at("edition"@, "rust-version"@, 0);
        lemma_differ_at("edition"@, "repository"@, 0);
        lemma_differ_at("edition"@, "categories"@, 0);
        lemma_differ_at("license"@, "rust-version"@, 0);
        lemma_differ_at("license"@, "repository"@, 0);
        lemma_differ_at("license"@, "categories"@, 0);
        lemma_differ_at("rust-version"@, "repository"@, 1);
        lemma_differ_at("rust-version"@, "categories"@, 0);
        lemma_differ_at("repository"@, "categories"@, 0);
        assert forall|k: Seq<char>| !workspace_package_keys().contains(k) implies #[trigger] get(*p, k) == get_in(Some(start), k) by {
            assert(k != workspace_package_keys()[0]);
            assert(k != workspace_package_keys()[1]);
            assert(k != workspace_package_keys()[2]);
            assert(k != workspace_package_keys()[3]);
            assert(k != workspace_package_keys()[4]);
            assert(k != workspace_package_keys()[5]);
        }
    }
}

fn repair_workspace_lints(l: &mut TomlTable)
    ensures
        workspace_lints_ok(Some(*old(l)), *final(l)),
        well_keyed(*old(l)) ==> well_keyed(*final(l)),
{
    proof {
        reveal_strlit("rust");
        reveal_strlit("clippy");
    }
    proof {
        lemma_differ_at("rust"@, "clippy"@, 0);
    }
    let ghost start = *l;
    let mut rust = take_table(l, "rust");
    let ghost rust0 = rust;
    set_string(&mut rust, "unsafe_code", "forbid");
    proof {
        assert forall|k: Seq<char>| !seq!["unsafe_code"@].contains(k) implies #[trigger] get(rust, k) == get_in(table_in(Some(start), "rust"@), k) by {
            assert(seq!["unsafe_code"@][0] == "unsafe_code"@);
            assert(get(rust0, k) == get_in(get_table(start, "rust"@), k));
        }
    }
    set_value(l, "rust", TomlValue::Table(rust));
    let ghost mid = *l;
    let mut clippy = take_table(l, "clippy");
    let ghost clippy0 = clippy;
    repair_workspace_clippy_lints(&mut clippy);
    proof {
        assert forall|k: Seq<char>| #[trigger] get(clippy0, k) == get_in(table_in(Some(start), "clippy"@), k) by {
            assert(get_table(mid, "clippy"@) == get_table(start, "clippy"@));
        }
        assert forall|k: Seq<char>| #[trigger] get_in(Some(clippy0), k) == get_in(table_in(Some(start), "clippy"@), k) by {}
    }
    let ghost clippy1 = clippy;
    set_value(l, "clippy", TomlValue::Table(clippy));
    proof {
        assert(clippy_ok(table_in(Some(start), "clippy"@), clippy1)) by {
            lemma_clippy_ok_same_start(Some(clippy0), table_in(Some(start), "clippy"@), clippy1);
        }
        assert forall|k: Seq<char>| !seq!["rust"@, "clippy"@].contains(k) implies #[trigger] get(*l, k) == get_in(Some(start), k) by {
            assert(seq!["rust"@, "clippy"@][0] == "rust"@);
            assert(seq!["rust"@, "clippy"@][1] == "clippy"@);
        }
    }
}

/// A property of a repaired table that depends on the old table only
/// through what it reads.
proof fn lemma_clippy_ok_same_start(a: Option<TomlTable>, b: Option<TomlTable>, c: TomlTable)
    requires
        clippy_ok(a, c),
        forall|k: Seq<char>| #[trigger] get_in(a, k) == get_in(b, k),
    ensures
        clippy_ok(b, c),
{
    assert forall|i: int| 0 <= i < clippy_group_keys().len() implies kept_or(b, c, (#[trigger] clippy_group_keys()[i])@,
        is_lint_table(get(c, clippy_group_keys()[i]@), "warn"@, -1i64)) by {
        assert(get_in(a, clippy_group_keys()[i]@) == get_in(b, clippy_group_keys()[i]@));
    }
    assert forall|i: int| 0 <= i < clippy_lint_levels().len() implies kept_or(b, c, (#[trigger] clippy_lint_levels()[i]).0@,
        is_str(get(c, clippy_lint_levels()[i].0@), clippy_lint_levels()[i].1@)) by {
        assert(get_in(a, clippy_lint_levels()[i].0@) == get_in(b, clippy_lint_levels()[i].0@));
    }
    assert forall|k: Seq<char>| !(key_views(clippy_group_keys()) + pair_keys(clippy_lint_levels())).contains(k) implies #[trigger] get(c, k) == get_in(b, k) by {
        assert(get_in(a, k) == get_in(b, k));
    }
}

/// Repairs the workspace shape: standard members, default members and
/// resolver, the `[workspace.package]` defaults with the facade's
/// repository, and the workspace lints.
pub fn repair_workspace_shape(root: &mut TomlTable, facade_name: &str)
    ensures
        shape_repaired(*old(root), *final(root), facade_name@),
        well_keyed(*old(root)) ==> well_keyed(*final(root)),
{
    proof {
        reveal_strlit("members");
        reveal_strlit("default-members");
        reveal_strlit("resolver");
        reveal_strlit("package");
        reveal_strlit("lints");
    }
    proof {
        lemma_differ_at("members"@, "default-members"@, 0);
        lemma_differ_at("members"@, "resolver"@, 0);
        lemma_differ_at("members"@, "package"@, 0);
        lemma_differ_at("members"@, "lints"@, 0);
        lemma_differ_at("default-members"@, "resolver"@, 0);
        lemma_differ_at("default-members"@, "package"@, 0);
        lemma_differ_at("default-members"@, "lints"@, 0);
        lemma_differ_at("resolver"@, "package"@, 0);
        lemma_differ_at("resolver"@, "lints"@, 0);
        lemma_differ_at("package"@, "lints"@, 0);
    }
    let ghost start = *root;
    let mut ws = take_table(root, "workspace");
    let ghost ws0 = ws;
    set_string_array(&mut ws, "members", &vec!["crates/*"]);
    set_string_array(&mut ws, "default-members", &vec!["."]);
    set_string(&mut ws, "resolver", "3");
    let ghost ws1 = ws;
    let mut package = take_table(&mut ws, "package");
    let ghost p0 = package;
    repair_workspace_package(&mut package, facade_name);
    let ghost p1 = package;
    set_value(&mut ws, "package", TomlValue::Table(package));
    let ghost ws2 = ws;
    let mut lints = take_table(&mut ws, "lints");
    let ghost l0 = lints;
    repair_workspace_lints(&mut lints);
    let ghost l1 = lints;
    set_value(&mut ws, "lints", TomlValue::Table(lints));
    let ghost ws3 = ws;
    set_value(root, "workspace", TomlValue::Table(ws));
    proof {
        assert(seq!["crates/*"].map_values(|s: &str| s@) =~= seq!["crates/*"@]);
        assert(seq!["."].map_values(|s: &str| s@) =~= seq!["."@]);
        let old_ws = get_table(start, "workspace"@);
        assert forall|k: Seq<char>| #[trigger] get(ws0, k) == get_in(old_ws, k) by {}
        assert(get_table(ws1, "package"@) == table_in(old_ws, "package"@));
        lemma_workspace_package_same_start(Some(p0), table_in(old_ws, "package"@), p1, facade_name@);
        assert(get_table(ws2, "lints"@) == table_in(old_ws, "lints"@));
        lemma_workspace_lints_same_start(Some(l0), table_in(old_ws, "lints"@), l1);
        assert(get(ws3, "package"@) == get(ws2, "package"@));
        assert(get(ws3, "members"@) == get(ws1, "members"@));
        assert(get(ws3, "default-members"@) == get(ws1, "default-members"@));
        assert(get(ws3, "resolver"@) == get(ws1, "resolver"@));
        assert forall|k: Seq<char>| !workspace_shape_keys().contains(k) implies #[trigger] get(ws3, k) == get_in(old_ws, k) by {
            assert(k != workspace_shape_keys()[0]);
            assert(k != workspace_shape_keys()[1]);
            assert(k != workspace_shape_keys()[2]);
            assert(k != workspace_shape_keys()[3]);
            assert(k != workspace_shape_keys()[4]);
        }
        assert forall|k: Seq<char>| !seq!["workspace"@].contains(k) implies #[trigger] get(*root, k) == get_in(Some(start), k) by {
            assert(seq!["workspace"@][0] == "workspace"@);
        }
    }
}

proof fn lemma_workspace_package_same_start(a: Option<TomlTable>, b: Option<TomlTable>, p: TomlTable, facade: Seq<char>)
    requires
        workspace_package_ok(a, p, facade),
        forall|k: Seq<char>| #[trigger] get_in(a, k) == get_in(b, k),
    ensures
        workspace_package_ok(b, p, facade),
{
    assert(get_in(a, "authors"@) == get_in(b, "authors"@));
    assert(get_in(a, "edition"@) == get_in(b, "edition"@));
    assert(get_in(a, "license"@) == get_in(b, "license"@));
    assert(get_in(a, "rust-version"@) == get_in(b, "rust-version"@));
    assert(get_in(a, "categories"@) == get_in(b, "categories"@));
    assert forall|k: Seq<char>| !workspace_package_keys().contains(k) implies #[trigger] get(p, k) == get_in(b, k) by {
        assert(get_in(a, k) == get_in(b, k));
    }
}

proof fn lemma_workspace_lints_same_start(a: Option<TomlTable>, b: Option<TomlTable>, l: TomlTable)
    requires
        workspace_lints_ok(a, l),
        forall|k: Seq<char>| #[trigger] get_in(a, k) == get_in(b, k),
    ensures
        workspace_lints_ok(b, l),
{
    assert(get_in(a, "rust"@) == get_in(b, "rust"@));
    assert(get_in(a, "clippy"@) == get_in(b, "clippy"@));
    assert(table_in(a, "rust"@) == table_in(b, "rust"@));
    assert(table_in(a, "clippy"@) == table_in(b, "clippy"@));
    assert forall|k: Seq<char>| !seq!["rust"@, "clippy"@].contains(k) implies #[trigger] get(l, k) == get_in(b, k) by {
        assert(get_in(a, k) == get_in(b, k));
    }
}

/// The last crate of `cs` with the package name `name`.
pub open spec fn last_named(cs: Seq<CrateInfoView>, name: Seq<char>) -> Option<CrateInfoView>
    decreases cs.len(),
{
    if cs.len() == 0 {
        None
    } else if cs.last().package_name == name {
        Some(cs.last())
    } else {
        last_named(cs.drop_last(), name)
    }
}

/// Whether `v` is the workspace dependency entry of crate `c`: exactly its
/// version and its path under `crates/`.
pub open spec fn is_dependency_entry(v: Option<TomlValue>, c: CrateInfoView) -> bool {
    match v {
        Some(TomlValue::Table(t)) => {
            &&& is_str(get(t, "version"@), effective_version(c))
            &&& is_str(get(t, "path"@), "crates/"@ + c.dir_name)
            &&& forall|k: Seq<char>| k != "version"@ && k != "path"@ ==> #[trigger] get(t, k) is None
        },
        _ => false,
    }
}

/// Whether a repaired `[workspace.dependencies]` holds the entry of each
/// crate (the last one of each name) and keeps every other entry.
pub open spec fn workspace_dependencies_ok(old: Option<TomlTable>, d: TomlTable, cs: Seq<CrateInfoView>) -> bool {
    forall|k: Seq<char>| match #[trigger] last_named(cs, k) {
        Some(c) => is_dependency_entry(get(d, k), c),
        None => get(d, k) == get_in(old, k),
    }
}

/// Whether `new` is `old` with its workspace dependencies repaired.
pub open spec fn dependencies_repaired(old: TomlTable, new: TomlTable, cs: Seq<CrateInfoView>) -> bool {
    &&& unchanged_except(Some(old), new, seq!["workspace"@])
    &&& match get_table(new, "workspace"@) {
        Some(ws) => {
            &&& unchanged_except(get_table(old, "workspace"@), ws, seq!["dependencies"@])
            &&& match get_table(ws, "dependencies"@) {
                Some(d) => workspace_dependencies_ok(table_in(get_table(old, "workspace"@), "dependencies"@), d, cs),
                None => false,
            }
        },
        None => false,
    }
}

fn dependency_entry(child: &CrateInfo) -> (v: TomlValue)
    ensures
        is_dependency_entry(Some(v), child@),
        value_well_keyed(v),
{
    proof {
        reveal_strlit("version");
        reveal_strlit("path");
        lemma_differ_at("version"@, "path"@, 0);
    }
    let mut entry = TomlTable::new();
    let ghost empty = entry;
    set_string(&mut entry, "version", child.effective_version());
    let path = cat2("crates/", child.dir_name.as_str());
    set_string(&mut entry, "path", path.as_str());
    proof {
        assert forall|k: Seq<char>| k != "version"@ && k != "path"@ implies #[trigger] get(entry, k) is None by {
            crate::toml_tree::lemma_first_index(empty.entries@, k);
        }
    }
    TomlValue::Table(entry)
}

/// Sets the workspace dependency of every child crate: its version (or the
/// default) and its path under `crates/`.
pub fn repair_workspace_dependencies(root: &mut TomlTable, children: &Vec<CrateInfo>)
    ensures
        dependencies_repaired(*old(root), *final(root), info_views(children@)),
        well_keyed(*old(root)) ==> well_keyed(*final(root)),
{
    let ghost start = *root;
    let mut ws = take_table(root, "workspace");
    let ghost ws0 = ws;
    let mut deps = take_table(&mut ws, "dependencies");
    let ghost d0 = deps;
    let ghost cs = info_views(children@);
    let mut i: usize = 0;
    while i < children.len()
        invariant
            i <= children.len(),
            cs == info_views(children@),
            workspace_dependencies_ok(Some(d0), deps, cs.take(i as int)),
            well_keyed(start) ==> well_keyed(deps) && well_keyed(ws) && well_keyed(*root),
        decreases children.len() - i,
    {
        let child = &children[i];
        let ghost before = deps;
        let entry = dependency_entry(child);
        set_value(&mut deps, child.dependency_name(), entry);
        proof {
            assert(cs.take(i + 1).drop_last() =~= cs.take(i as int));
            assert(cs.take(i + 1).last() == child@);
            assert forall|k: Seq<char>| match #[trigger] last_named(cs.take(i + 1), k) {
                Some(c) => is_dependency_entry(get(deps, k), c),
                None => get(deps, k) == get_in(Some(d0), k),
            } by {
                if k != child.package_name@ {
                    assert(last_named(cs.take(i + 1), k) == last_named(cs.take(i as int), k));
                    assert(get(deps, k) == get(before, k));
                }
            }
        }
        i = i + 1;
    }
    assert(cs.take(i as int) =~= cs);
    let ghost d1 = deps;
    set_value(&mut ws, "dependencies", TomlValue::Table(deps));
    let ghost ws1 = ws;
    set_value(root, "workspace", TomlValue::Table(ws));
    proof {
        let old_ws = get_table(start, "workspace"@);
        assert forall|k: Seq<char>| #[trigger] last_named(cs, k) is None ==> get(d1, k) == get_in(table_in(old_ws, "dependencies"@), k) by {
            assert(get(d0, k) == get_in(get_table(ws0, "dependencies"@), k));
        }
        assert forall|k: Seq<char>| match #[trigger] last_named(cs, k) {
            Some(c) => is_dependency_entry(get(d1, k), c),
            None => get(d1, k) == get_in(table_in(old_ws, "dependencies"@), k),
        } by {
            assert(get(d0, k) == get_in(get_table(ws0, "dependencies"@), k));
        }
        assert forall|k: Seq<char>| !seq!["dependencies"@].contains(k) implies #[trigger] get(ws1, k) == get_in(old_ws, k) by {
            assert(seq!["dependencies"@][0] == "dependencies"@);
        }
        assert forall|k: Seq<char>| !seq!["workspace"@].contains(k) implies #[trigger] get(*root, k) == get_in(Some(start), k) by {
            assert(seq!["workspace"@][0] == "workspace"@);
        }
    }
}

/// The package fields a crate inherits from the workspace.
pub open spec fn inherited_package_fields() -> Seq<Seq<char>> {
    seq!["authors"@, "edition"@, "rust-version"@, "license"@, "repository"@]
}

/// The documentation home of a crate: the facade's page for the facade
/// package, the crate's page under the facade for a child.
pub open spec fn homepage_url(facade: Seq<char>, package: Seq<char>, is_facade: bool) -> Seq<char> {
    if is_facade {
        "https://rustuse.org/"@ + facade + "/"@
    } else {
        "https://rustuse.org/"@ + facade + "/"@ + package + "/"@
    }
}

/// The keys a package metadata repair touches.
pub open spec fn package_metadata_keys() -> Seq<Seq<char>> {
    seq![
        "name"@,
        "version"@,
        "publish"@,
        "readme"@,
        "documentation"@,
        "homepage"@,
        "authors"@,
        "edition"@,
        "rust-version"@,
        "license"@,
        "repository"@,
        "categories"@,
        "metadata"@,
    ]
}

/// Whether a repaired `[package.metadata]` turns on `all-features` for
/// docs.rs and keeps everything else.
pub open spec fn docs_rs_set(old: Option<TomlTable>, m: Option<TomlTable>) -> bool {
    match m {
        Some(m) => {
            &&& unchanged_except(old, m, seq!["docs"@])
            &&& match get_table(m, "docs"@) {
                Some(d) => {
                    &&& unchanged_except(table_in(old, "docs"@), d, seq!["rs"@])
                    &&& match get_table(d, "rs"@) {
                        Some(rs) => is_bool(get(rs, "all-features"@), true) && unchanged_except(
                            table_in(table_in(old, "docs"@), "rs"@),
                            rs,
                            seq!["all-features"@],
                        ),
                        None => false,
                    }
                },
                None => false,
            }
        },
        None => false,
    }
}

/// Whether a repaired `[package]` keeps its name, version, publish flag and
/// readme or adds the defaults, sets the documentation and home pages,
/// inherits the shared fields and categories from the workspace, and turns
/// on `all-features` for docs.rs.
pub open spec fn package_metadata_ok(old: Option<TomlTable>, p: TomlTable, facade: Seq<char>, package: Seq<char>, is_facade: bool) -> bool {
    &&& kept_or(old, p, "name"@, is_str(get(p, "name"@), package))
    &&& kept_or(old, p, "version"@, is_str(get(p, "version"@), DEFAULT_PACKAGE_VERSION@))
    &&& kept_or(old, p, "publish"@, is_bool(get(p, "publish"@), true))
    &&& kept_or(old, p, "readme"@, is_str(get(p, "readme"@), "README.md"@))
    &&& is_str(get(p, "documentation"@), "https://docs.rs/"@ + package)
    &&& is_str(get(p, "homepage"@), homepage_url(facade, package, is_facade))
    &&& forall|i: int| 0 <= i < 5 ==> is_workspace_marker(get(p, #[trigger] inherited_package_fields()[i]))
    &&& is_workspace_marker(get(p, "categories"@))
    &&& docs_rs_set(table_in(old, "metadata"@), get_table(p, "metadata"@))
    &&& unchanged_except(old, p, package_metadata_keys())
}

/// Whether `new` is `old` with the package metadata of `package` repaired
/// and `[lints]` marked as inherited.
pub open spec fn metadata_repaired(old: TomlTable, new: TomlTable, facade: Seq<char>, package: Seq<char>, is_facade: bool) -> bool {
    &&& unchanged_except(Some(old), new, seq!["package"@, "lints"@])
    &&& match get_table(new, "package"@) {
        Some(p) => package_metadata_ok(get_table(old, "package"@), p, facade, package, is_facade),
        None => false,
    }
    &&& match get_table(new, "lints"@) {
        Some(l) => is_workspace_marker(get(l, "workspace"@)) && unchanged_except(get_table(old, "lints"@), l, seq!["workspace"@]),
        None => false,
    }
}

fn repair_docs_rs(package: &mut TomlTable)
    ensures
        docs_rs_set(table_in(Some(*old(package)), "metadata"@), get_table(*final(package), "metadata"@)),
        forall|k: Seq<char>| k != "metadata"@ ==> #[trigger] get(*final(package), k) == get(*old(package), k),
        well_keyed(*old(package)) ==> well_keyed(*final(package)),
{
    let ghost p0 = *package;
    let mut metadata = take_table(package, "metadata");
    let ghost m0 = metadata;
    let mut docs = take_table(&mut metadata, "docs");
    let ghost d0 = docs;
    let mut rs = take_table(&mut docs, "rs");
    let ghost r0 = rs;
    set_value(&mut rs, "all-features", TomlValue::Boolean(true));
    let ghost r1 = rs;
    set_value(&mut docs, "rs", TomlValue::Table(rs));
    let ghost d1 = docs;
    set_value(&mut metadata, "docs", TomlValue::Table(docs));
    let ghost m1 = metadata;
    set_value(package, "metadata", TomlValue::Table(metadata));
    proof {
        let om = table_in(Some(p0), "metadata"@);
        assert forall|k: Seq<char>| #[trigger] get(m0, k) == get_in(om, k) by {}
        assert(table_in(om, "docs"@) == get_table(m0, "docs"@));
        assert(table_in(table_in(om, "docs"@), "rs"@) == get_table(d0, "rs"@));
        assert forall|k: Seq<char>| !seq!["all-features"@].contains(k) implies #[trigger] get(r1, k) == get_in(table_in(table_in(om, "docs"@), "rs"@), k) by {
            assert(seq!["all-features"@][0] == "all-features"@);
        }
        assert forall|k: Seq<char>| !seq!["rs"@].contains(k) implies #[trigger] get(d1, k) == get_in(table_in(om, "docs"@), k) by {
            assert(seq!["rs"@][0] == "rs"@);
        }
        assert forall|k: Seq<char>| !seq!["docs"@].contains(k) implies #[trigger] get(m1, k) == get_in(om, k) by {
            assert(seq!["docs"@][0] == "docs"@);
        }
    }
}

/// Repairs the package metadata of a manifest for the crate `package_name`
/// (the facade package where `is_facade_package`), and marks its `[lints]`
/// as inherited.
#[verifier::rlimit(60)]
pub fn repair_package_metadata(root: &mut TomlTable, facade_name: &str, package_name: &str, is_facade_package: bool)
    ensures
        metadata_repaired(*old(root), *final(root), facade_name@, package_name@, is_facade_package),
        well_keyed(*old(root)) ==> well_keyed(*final(root)),
{
    proof {
        reveal_strlit("name");
        reveal_strlit("version");
        reveal_strlit("publish");
        reveal_strlit("readme");
        reveal_strlit("documentation");
        reveal_strlit("homepage");
        reveal_strlit("authors");
        reveal_strlit("edition");
        reveal_strlit("rust-version");
        reveal_strlit("license");
        reveal_strlit("repository");
        reveal_strlit("categories");
        reveal_strlit("metadata");
        lemma_differ_at("name"@, "version"@, 0);
        lemma_differ_at("name"@, "publish"@, 0);
        lemma_differ_at("name"@, "readme"@, 0);
        lemma_differ_at("name"@, "documentation"@, 0);
        lemma_differ_at("name"@, "homepage"@, 0);
        lemma_differ_at("name"@, "authors"@, 0);
        lemma_differ_at("name"@, "edition"@, 0);
        lemma_differ_at("name"@, "rust-version"@, 0);
        lemma_differ_at("name"@, "license"@, 0);
        lemma_differ_at("name"@, "repository"@, 0);
        lemma_differ_at("name"@, "categories"@, 0);
        lemma_differ_at("name"@, "metadata"@, 0);
        lemma_differ_at("version"@, "publish"@, 0);
        lemma_differ_at("version"@, "readme"@, 0);
        lemma_differ_at("version"@, "documentation"@, 0);
        lemma_differ_at("version"@, "homepage"@, 0);
        lemma_differ_at("version"@, "authors"@, 0);
        lemma_differ_at("version"@, "edition"@, 0);
        lemma_differ_at("version"@, "rust-version"@, 0);
        lemma_differ_at("version"@, "license"@, 0);
        lemma_differ_at("version"@, "repository"@, 0);
        lemma_differ_at("version"@, "categories"@, 0);
        lemma_differ_at("version"@, "metadata"@, 0);
        lemma_differ_at("publish"@, "readme"@, 0);
        lemma_differ_at("publish"@, "documentation"@, 0);
        lemma_differ_at("publish"@, "homepage"@, 0);
        lemma_differ_at("publish"@, "authors"@, 0);
        lemma_differ_at("publish"@, "edition"@, 0);
        lemma_differ_at("publish"@, "rust-version"@, 0);
        lemma_differ_at("publish"@, "license"@, 0);
        lemma_differ_at("publish"@, "repository"@, 0);
        lemma_differ_at("publish"@, "categories"@, 0);
        lemma_differ_at("publish"@, "metadata"@, 0);
        lemma_differ_at("readme"@, "documentation"@, 0);
        lemma_differ_at("readme"@, "homepage"@, 0);
        lemma_differ_at("readme"@, "authors"@, 0);
        lemma_differ_at("readme"@, "edition"@, 0);
        lemma_differ_at("readme"@, "rust-version"@, 1);
        lemma_differ_at("readme"@, "license"@, 0);
        lemma_differ_at("readme"@, "repository"@, 2);
        lemma_differ_at("readme"@, "categories"@, 0);
        lemma_differ_at("readme"@, "metadata"@, 0);
        lemma_differ_at("documentation"@, "homepage"@, 0);
        lemma_differ_at("documentation"@, "authors"@, 0);
        lemma_differ_at("documentation"@, "edition"@, 0);
        lemma_differ_at("documentation"@, "rust-version"@, 0);
        lemma_differ_at("documentation"@, "license"@, 0);
        lemma_differ_at("documentation"@, "repository"@, 0);
        lemma_differ_at("documentation"@, "categories"@, 0);
        lemma_differ_at("documentation"@, "metadata"@, 0);
        lemma_differ_at("homepage"@, "authors"@, 0);
        lemma_differ_at("homepage"@, "edition"@, 0);
        lemma_differ_at("homepage"@, "rust-version"@, 0);
        lemma_differ_at("homepage"@, "license"@, 0);
        lemma_differ_at("homepage"@, "repository"@, 0);
        lemma_differ_at("homepage"@, "categories"@, 0);
        lemma_differ_at("homepage"@, "metadata"@, 0);
        lemma_differ_at("authors"@, "edition"@, 0);
        lemma_differ_at("authors"@, "rust-version"@, 0);
        lemma_differ_at("authors"@, "license"@, 0);
        lemma_differ_at("authors"@, "repository"@, 0);
        lemma_differ_at("authors"@, "categories"@, 0);
        lemma_differ_at("authors"@, "metadata"@, 0);
        lemma_differ_at("edition"@, "rust-version"@, 0);
        lemma_differ_at("edition"@, "license"@, 0);
        lemma_differ_at("edition"@, "repository"@, 0);
        lemma_differ_at("edition"@, "categories"@, 0);
        lemma_differ_at("edition"@, "metadata"@, 0);
        lemma_differ_at("rust-version"@, "license"@, 0);
        lemma_differ_at("rust-version"@, "repository"@, 1);
        lemma_differ_at("rust-version"@, "categories"@, 0);
        lemma_differ_at("rust-version"@, "metadata"@, 0);
        lemma_differ_at("license"@, "repository"@, 0);
        lemma_differ_at("license"@, "categories"@, 0);
        lemma_differ_at("license"@, "metadata"@, 0);
        lemma_differ_at("repository"@, "categories"@, 0);
        lemma_differ_at("repository"@, "metadata"@, 0);
        lemma_differ_at("categories"@, "metadata"@, 0);
        reveal_strlit("package");
        reveal_strlit("lints");
        lemma_differ_at("package"@, "lints"@, 0);
    }
    let ghost start = *root;
    let mut package = take_table(root, "package");
    let ghost p0 = package;
    set_string_if_missing(&mut package, "name", package_name);
    set_string_if_missing(&mut package, "version", DEFAULT_PACKAGE_VERSION);
    set_bool_if_missing(&mut package, "publish", true);
    set_string_if_missing(&mut package, "readme", "README.md");
    let documentation = cat2("https://docs.rs/", package_name);
    set_string(&mut package, "documentation", documentation.as_str());
    let homepage = if is_facade_package {
        cat3("https://rustuse.org/", facade_name, "/")
    } else {
        let mut h = cat3("https://rustuse.org/", facade_name, "/");
        h.append(package_name);
        h.append("/");
        h
    };
    set_string(&mut package, "homepage", homepage.as_str());
    set_workspace_true(&mut package, "authors");
    set_workspace_true(&mut package, "edition");
    set_workspace_true(&mut package, "rust-version");
    set_workspace_true(&mut package, "license");
    set_workspace_true(&mut package, "repository");
    set_workspace_true(&mut package, "categories");
    let ghost p1 = package;
    repair_docs_rs(&mut package);
    let ghost p2 = package;
    set_value(root, "package", TomlValue::Table(package));
    let ghost mid = *root;
    let mut lints = take_table(root, "lints");
    let ghost l0 = lints;
    set_workspace_true(&mut lints, "workspace");
    let ghost l1 = lints;
    set_value(root, "lints", TomlValue::Table(lints));
    proof {
        let op = get_table(start, "package"@);
        assert forall|k: Seq<char>| #[trigger] get(p0, k) == get_in(op, k) by {}
        assert(table_in(Some(p0), "metadata"@) == table_in(op, "metadata"@));
        assert forall|i: int| 0 <= i < 5 implies is_workspace_marker(get(p2, #[trigger] inherited_package_fields()[i])) by {
            assert(inherited_package_fields()[i] != "metadata"@);
        }
        assert forall|k: Seq<char>| !package_metadata_keys().contains(k) implies #[trigger] get(p2, k) == get_in(op, k) by {
            assert(k != package_metadata_keys()[0]);
            assert(k != package_metadata_keys()[1]);
            assert(k != package_metadata_keys()[2]);
            assert(k != package_metadata_keys()[3]);
            assert(k != package_metadata_keys()[4]);
            assert(k != package_metadata_keys()[5]);
            assert(k != package_metadata_keys()[6]);
            assert(k != package_metadata_keys()[7]);
            assert(k != package_metadata_keys()[8]);
            assert(k != package_metadata_keys()[9]);
            assert(k != package_metadata_keys()[10]);
            assert(k != package_metadata_keys()[11]);
            assert(k != package_metadata_keys()[12]);
        }
        assert(get_table(mid, "lints"@) == get_table(start, "lints"@));
        assert forall|k: Seq<char>| !seq!["workspace"@].contains(k) implies #[trigger] get(l1, k) == get_in(get_table(start, "lints"@), k) by {
            assert(seq!["workspace"@][0] == "workspace"@);
        }
        assert forall|k: Seq<char>| !seq!["package"@, "lints"@].contains(k) implies #[trigger] get(*root, k) == get_in(Some(start), k) by {
            assert(seq!["package"@, "lints"@][0] == "package"@);
            assert(seq!["package"@, "lints"@][1] == "lints"@);
        }
    }
}

/// The source fields a facade dependency drops in favour of the workspace.
pub open spec fn dependency_source_fields() -> Seq<Seq<char>> {
    seq!["version"@, "path"@, "git"@, "branch"@, "tag"@, "rev"@, "registry"@, "registry-index"@, "package"@]
}

/// Whether some crate of `cs` has the package name `name`.
pub open spec fn has_named(cs: Seq<CrateInfoView>, name: Seq<char>) -> bool {
    last_named(cs, name) is Some
}

/// Whether a repaired facade dependency drops its source fields, is taken
/// from the workspace and optional, and keeps everything else.
pub open spec fn wired_dependency_ok(old: Option<TomlTable>, t: TomlTable) -> bool {
    &&& forall|i: int| 0 <= i < 9 ==> get(t, #[trigger] dependency_source_fields()[i]) is None
    &&& is_bool(get(t, "workspace"@), true)
    &&& is_bool(get(t, "optional"@), true)
    &&& unchanged_except(old, t, dependency_source_fields() + seq!["workspace"@, "optional"@])
}

/// Whether a repaired facade `[dependencies]` wires in every crate and
/// keeps every other dependency.
pub open spec fn facade_dependencies_ok(old: Option<TomlTable>, d: TomlTable, cs: Seq<CrateInfoView>) -> bool {
    forall|k: Seq<char>| if #[trigger] has_named(cs, k) {
        match get(d, k) {
            Some(TomlValue::Table(t)) => wired_dependency_ok(table_in(old, k), t),
            _ => false,
        }
    } else {
        get(d, k) == get_in(old, k)
    }
}

proof fn lemma_wired_keys_distinct()
    ensures
        "version"@ != "path"@,
        "version"@ != "git"@,
        "version"@ != "branch"@,
        "version"@ != "tag"@,
        "version"@ != "rev"@,
        "version"@ != "registry"@,
        "version"@ != "registry-index"@,
        "version"@ != "package"@,
        "version"@ != "workspace"@,
        "version"@ != "optional"@,
        "path"@ != "git"@,
        "path"@ != "branch"@,
        "path"@ != "tag"@,
        "path"@ != "rev"@,
        "path"@ != "registry"@,
        "path"@ != "registry-index"@,
        "path"@ != "package"@,
        "path"@ != "workspace"@,
        "path"@ != "optional"@,
        "git"@ != "branch"@,
        "git"@ != "tag"@,
        "git"@ != "rev"@,
        "git"@ != "registry"@,
        "git"@ != "registry-index"@,
        "git"@ != "package"@,
        "git"@ != "workspace"@,
        "git"@ != "optional"@,
        "branch"@ != "tag"@,
        "branch"@ != "rev"@,
        "branch"@ != "registry"@,
        "branch"@ != "registry-index"@,
        "branch"@ != "package"@,
        "branch"@ != "workspace"@,
        "branch"@ != "optional"@,
        "tag"@ != "rev"@,
        "tag"@ != "registry"@,
        "tag"@ != "registry-index"@,
        "tag"@ != "package"@,
        "tag"@ != "workspace"@,
        "tag"@ != "optional"@,
        "rev"@ != "registry"@,
        "rev"@ != "registry-index"@,
        "rev"@ != "package"@,
        "rev"@ != "workspace"@,
        "rev"@ != "optional"@,
        "registry"@ != "registry-index"@,
        "registry"@ != "package"@,
        "registry"@ != "workspace"@,
        "registry"@ != "optional"@,
        "registry-index"@ != "package"@,
        "registry-index"@ != "workspace"@,
        "registry-index"@ != "optional"@,
        "package"@ != "workspace"@,
        "package"@ != "optional"@,
        "workspace"@ != "optional"@,
{
    reveal_strlit("version");
    reveal_strlit("path");
    reveal_strlit("git");
    reveal_strlit("branch");
    reveal_strlit("tag");
    reveal_strlit("rev");
    reveal_strlit("registry");
    reveal_strlit("registry-index");
    reveal_strlit("package");
    reveal_strlit("workspace");
    reveal_strlit("optional");
    lemma_differ_at("version"@, "path"@, 0);
    lemma_differ_at("version"@, "git"@, 0);
    lemma_differ_at("version"@, "branch"@, 0);
    lemma_differ_at("version"@, "tag"@, 0);
    lemma_differ_at("version"@, "rev"@, 0);
    lemma_differ_at("version"@, "registry"@, 0);
    lemma_differ_at("version"@, "registry-index"@, 0);
    lemma_differ_at("version"@, "package"@, 0);
    lemma_differ_at("version"@, "workspace"@, 0);
    lemma_differ_at("version"@, "optional"@, 0);
    lemma_differ_at("path"@, "git"@, 0);
    lemma_differ_at("path"@, "branch"@, 0);
    lemma_differ_at("path"@, "tag"@, 0);
    lemma_differ_at("path"@, "rev"@, 0);
    lemma_differ_at("path"@, "registry"@, 0);
    lemma_differ_at("path"@, "registry-index"@, 0);
    lemma_differ_at("path"@, "package"@, 2);
    lemma_differ_at("path"@, "workspace"@, 0);
    lemma_differ_at("path"@, "optional"@, 0);
    lemma_differ_at("git"@, "branch"@, 0);
    lemma_differ_at("git"@, "tag"@, 0);
    lemma_differ_at("git"@, "rev"@, 0);
    lemma_differ_at("git"@, "registry"@, 0);
    lemma_differ_at("git"@, "registry-index"@, 0);
    lemma_differ_at("git"@, "package"@, 0);
    lemma_differ_at("git"@, "workspace"@, 0);
    lemma_differ_at("git"@, "optional"@, 0);
    lemma_differ_at("branch"@, "tag"@, 0);
    lemma_differ_at("branch"@, "rev"@, 0);
    lemma_differ_at("branch"@, "registry"@, 0);
    lemma_differ_at("branch"@, "registry-index"@, 0);
    lemma_differ_at("branch"@, "package"@, 0);
    lemma_differ_at("branch"@, "workspace"@, 0);
    lemma_differ_at("branch"@, "optional"@, 0);
    lemma_differ_at("tag"@, "rev"@, 0);
    lemma_differ_at("tag"@, "registry"@, 0);
    lemma_differ_at("tag"@, "registry-index"@, 0);
    lemma_differ_at("tag"@, "package"@, 0);
    lemma_differ_at("tag"@, "workspace"@, 0);
    lemma_differ_at("tag"@, "optional"@, 0);
    lemma_differ_at("rev"@, "registry"@, 2);
    lemma_differ_at("rev"@, "registry-index"@, 2);
    lemma_differ_at("rev"@, "package"@, 0);
    lemma_differ_at("rev"@, "workspace"@, 0);
    lemma_differ_at("rev"@, "optional"@, 0);
    lemma_differ_len("registry"@, "registry-index"@);
    lemma_differ_at("registry"@, "package"@, 0);
    lemma_differ_at("registry"@, "workspace"@, 0);
    lemma_differ_at("registry"@, "optional"@, 0);
    lemma_differ_at("registry-index"@, "package"@, 0);
    lemma_differ_at("registry-index"@, "workspace"@, 0);
    lemma_differ_at("registry-index"@, "optional"@, 0);
    lemma_differ_at("package"@, "workspace"@, 0);
    lemma_differ_at("package"@, "optional"@, 0);
    lemma_differ_at("workspace"@, "optional"@, 0);
}

fn wire_dependency(dep: &mut TomlTable)
    ensures
        wired_dependency_ok(Some(*old(dep)), *final(dep)),
        well_keyed(*old(dep)) ==> well_keyed(*final(dep)),
{
    proof {
        lemma_wired_keys_distinct();
    }
    let ghost start = *dep;
    remove_key(dep, "version");
    remove_key(dep, "path");
    remove_key(dep, "git");
    remove_key(dep, "branch");
    remove_key(dep, "tag");
    remove_key(dep, "rev");
    remove_key(dep, "registry");
    remove_key(dep, "registry-index");
    remove_key(dep, "package");
    set_value(dep, "workspace", TomlValue::Boolean(true));
    set_value(dep, "optional", TomlValue::Boolean(true));
    proof {
        let all = dependency_source_fields() + seq!["workspace"@, "optional"@];
        assert forall|i: int| 0 <= i < 9 implies get(*dep, #[trigger] dependency_source_fields()[i]) is None by {
            assert(dependency_source_fields()[i] != "workspace"@);
            assert(dependency_source_fields()[i] != "optional"@);
        }
        assert forall|k: Seq<char>| !all.contains(k) implies #[trigger] get(*dep, k) == get_in(Some(start), k) by {
            assert(all[0] == "version"@);
            assert(all[1] == "path"@);
            assert(all[2] == "git"@);
            assert(all[3] == "branch"@);
            assert(all[4] == "tag"@);
            assert(all[5] == "rev"@);
            assert(all[6] == "registry"@);
            assert(all[7] == "registry-index"@);
            assert(all[8] == "package"@);
            assert(all[9] == "workspace"@);
            assert(all[10] == "optional"@);
        }
    }
}

proof fn lemma_wired_same_start(a: Option<TomlTable>, b: Option<TomlTable>, t: TomlTable)
    requires
        wired_dependency_ok(a, t),
        forall|k: Seq<char>| #[trigger] get_in(a, k) == get_in(b, k),
    ensures
        wired_dependency_ok(b, t),
{
    assert forall|k: Seq<char>| !(dependency_source_fields() + seq!["workspace"@, "optional"@]).contains(k) implies #[trigger] get(t, k) == get_in(b, k) by {
        assert(get_in(a, k) == get_in(b, k));
    }
}

proof fn lemma_wired_twice(a: Option<TomlTable>, t1: TomlTable, t2: TomlTable)
    requires
        wired_dependency_ok(a, t1),
        wired_dependency_ok(Some(t1), t2),
    ensures
        wired_dependency_ok(a, t2),
{
    assert forall|k: Seq<char>| !(dependency_source_fields() + seq!["workspace"@, "optional"@]).contains(k) implies #[trigger] get(t2, k) == get_in(a, k) by {
        assert(get(t2, k) == get_in(Some(t1), k));
    }
}

/// Wires every child crate into the facade's `[dependencies]`: taken from
/// the workspace, optional, without source fields.
pub fn repair_facade_dependencies(root: &mut TomlTable, children: &Vec<CrateInfo>)
    ensures
        unchanged_except(Some(*old(root)), *final(root), seq!["dependencies"@]),
        match get_table(*final(root), "dependencies"@) {
            Some(d) => facade_dependencies_ok(get_table(*old(root), "dependencies"@), d, info_views(children@)),
            None => false,
        },
        well_keyed(*old(root)) ==> well_keyed(*final(root)),
{
    let ghost start = *root;
    let mut deps = take_table(root, "dependencies");
    let ghost d0 = deps;
    let ghost cs = info_views(children@);
    let mut i: usize = 0;
    while i < children.len()
        invariant
            i <= children.len(),
            cs == info_views(children@),
            facade_dependencies_ok(Some(d0), deps, cs.take(i as int)),
            well_keyed(start) ==> well_keyed(deps) && well_keyed(*root),
        decreases children.len() - i,
    {
        let child = &children[i];
        let name = child.dependency_name();
        let ghost before = deps;
        let mut dep = take_table(&mut deps, name);
        let ghost t0 = dep;
        wire_dependency(&mut dep);
        let ghost t1 = dep;
        set_value(&mut deps, name, TomlValue::Table(dep));
        proof {
            assert(cs.take(i + 1).drop_last() =~= cs.take(i as int));
            assert(cs.take(i + 1).last() == child@);
            assert forall|k: Seq<char>| #[trigger] get_in(Some(t0), k) == get_in(get_table(before, name@), k) by {}
            if has_named(cs.take(i as int), name@) {
                match get(before, name@) {
                    Some(TomlValue::Table(tb)) => {
                        assert(get_table(before, name@) == Some(tb));
                        lemma_wired_same_start(Some(t0), Some(tb), t1);
                        lemma_wired_twice(table_in(Some(d0), name@), tb, t1);
                    },
                    _ => {},
                }
            } else {
                assert(get(before, name@) == get_in(Some(d0), name@));
                lemma_wired_same_start(Some(t0), table_in(Some(d0), name@), t1);
            }
            assert(wired_dependency_ok(table_in(Some(d0), name@), t1));
            assert(get(deps, name@) == Some(TomlValue::Table(t1)));
            assert(has_named(cs.take(i + 1), name@));
            assert forall|k: Seq<char>| if #[trigger] has_named(cs.take(i + 1), k) {
                match get(deps, k) {
                    Some(TomlValue::Table(t)) => wired_dependency_ok(table_in(Some(d0), k), t),
                    _ => false,
                }
            } else {
                get(deps, k) == get_in(Some(d0), k)
            } by {
                if k != name@ {
                    assert(last_named(cs.take(i + 1), k) == last_named(cs.take(i as int), k));
                    assert(has_named(cs.take(i + 1), k) == has_named(cs.take(i as int), k));
                    assert(get(deps, k) == get(before, k));
                }
            }
        }
        i = i + 1;
    }
    assert(cs.take(i as int) =~= cs);
    let ghost d1 = deps;
    set_value(root, "dependencies", TomlValue::Table(deps));
    proof {
        let od = get_table(start, "dependencies"@);
        assert forall|k: Seq<char>| #[trigger] get_in(Some(d0), k) == get_in(od, k) by {}
        assert forall|k: Seq<char>| if #[trigger] has_named(cs, k) {
            match get(d1, k) {
                Some(TomlValue::Table(t)) => wired_dependency_ok(table_in(od, k), t),
                _ => false,
            }
        } else {
            get(d1, k) == get_in(od, k)
        } by {
            if has_named(cs, k) {
                match get(d1, k) {
                    Some(TomlValue::Table(t)) => {
                        assert forall|j: Seq<char>| #[trigger] get_in(table_in(Some(d0), k), j) == get_in(table_in(od, k), j) by {
                            assert(get(d0, k) == get_in(od, k));
                        }
                        lemma_wired_same_start(table_in(Some(d0), k), table_in(od, k), t);
                    },
                    _ => {},
                }
            }
        }
        assert forall|k: Seq<char>| !seq!["dependencies"@].contains(k) implies #[trigger] get(*root, k) == get_in(Some(start), k) by {
            assert(seq!["dependencies"@][0] == "dependencies"@);
        }
    }
}

/// The last crate of `cs` whose feature name is `feature`.
pub open spec fn last_with_feature(cs: Seq<CrateInfoView>, feature: Seq<char>) -> Option<CrateInfoView>
    decreases cs.len(),
{
    if cs.len() == 0 {
        None
    } else if child_feature_name(cs.last().package_name) == feature {
        Some(cs.last())
    } else {
        last_with_feature(cs.drop_last(), feature)
    }
}

/// The feature names of the crates, in order.
pub open spec fn feature_names(cs: Seq<CrateInfoView>) -> Seq<Seq<char>> {
    cs.map_values(|c: CrateInfoView| child_feature_name(c.package_name))
}

/// What a feature of a repaired facade reads before the child features are
/// set: `default` empty, `full` naming every child feature, the rest as
/// before.
pub open spec fn base_feature_ok(old: Option<TomlTable>, f: TomlTable, cs: Seq<CrateInfoView>, k: Seq<char>) -> bool {
    if k == "default"@ {
        is_str_array(get(f, k), seq![])
    } else if k == "full"@ {
        is_str_array(get(f, k), feature_names(cs))
    } else {
        get(f, k) == get_in(old, k)
    }
}

/// Whether a repaired facade `[features]` has an empty `default`, a `full`
/// naming every child feature, one feature per child that enables its
/// dependency (the last child of a feature name wins, also over `default`
/// and `full`), and keeps every other feature.
pub open spec fn facade_features_ok(old: Option<TomlTable>, f: TomlTable, cs: Seq<CrateInfoView>) -> bool {
    forall|k: Seq<char>| match #[trigger] last_with_feature(cs, k) {
        Some(c) => is_str_array(get(f, k), seq!["dep:"@ + c.package_name]),
        None => base_feature_ok(old, f, cs, k),
    }
}

/// Sets the facade features: `default` empty, `full` with every child
/// feature, and each child's feature enabling its dependency.
pub fn repair_facade_features(root: &mut TomlTable, children: &Vec<CrateInfo>)
    ensures
        unchanged_except(Some(*old(root)), *final(root), seq!["features"@]),
        match get_table(*final(root), "features"@) {
            Some(f) => facade_features_ok(get_table(*old(root), "features"@), f, info_views(children@)),
            None => false,
        },
        well_keyed(*old(root)) ==> well_keyed(*final(root)),
{
    proof {
        reveal_strlit("default");
        reveal_strlit("full");
        lemma_differ_at("default"@, "full"@, 0);
    }
    let ghost start = *root;
    let ghost cs = info_views(children@);
    let mut features = take_table(root, "features");
    let ghost f0 = features;
    set_value(&mut features, "default", TomlValue::Array(Vec::new()));
    let mut full: Vec<TomlValue> = Vec::new();
    let mut i: usize = 0;
    while i < children.len()
        invariant
            i <= children.len(),
            cs == info_views(children@),
            full@.len() == i,
            forall|j: int| 0 <= j < i ==> is_str(Some(#[trigger] full@[j]), feature_names(cs)[j]),
            forall|j: int| 0 <= j < i ==> value_well_keyed(#[trigger] full@[j]),
            well_keyed(start) ==> well_keyed(features) && well_keyed(*root),
        decreases children.len() - i,
    {
        full.push(TomlValue::String(children[i].feature_name()));
        i = i + 1;
    }
    set_value(&mut features, "full", TomlValue::Array(full));
    proof {
        assert forall|k: Seq<char>| #[trigger] base_feature_ok(Some(f0), features, cs, k) by {}
    }
    let mut i: usize = 0;
    while i < children.len()
        invariant
            i <= children.len(),
            cs == info_views(children@),
            forall|k: Seq<char>| match #[trigger] last_with_feature(cs.take(i as int), k) {
                Some(c) => is_str_array(get(features, k), seq!["dep:"@ + c.package_name]),
                None => base_feature_ok(Some(f0), features, cs, k),
            },
            well_keyed(start) ==> well_keyed(features) && well_keyed(*root),
        decreases children.len() - i,
    {
        let child = &children[i];
        let feature = child.feature_name();
        let dep = cat2("dep:", child.dependency_name());
        let ghost before = features;
        let mut items: Vec<TomlValue> = Vec::new();
        items.push(TomlValue::String(dep));
        assert(value_well_keyed(items@[0]));
        assert(value_well_keyed(TomlValue::Array(items)));
        set_value(&mut features, feature.as_str(), TomlValue::Array(items));
        proof {
            assert(cs.take(i + 1).drop_last() =~= cs.take(i as int));
            assert(cs.take(i + 1).last() == child@);
            assert forall|k: Seq<char>| match #[trigger] last_with_feature(cs.take(i + 1), k) {
                Some(c) => is_str_array(get(features, k), seq!["dep:"@ + c.package_name]),
                None => base_feature_ok(Some(f0), features, cs, k),
            } by {
                if k != feature@ {
                    assert(last_with_feature(cs.take(i + 1), k) == last_with_feature(cs.take(i as int), k));
                    assert(get(features, k) == get(before, k));
                    assert(base_feature_ok(Some(f0), features, cs, k) == base_feature_ok(Some(f0), before, cs, k));
                }
            }
        }
        i = i + 1;
    }
    assert(cs.take(i as int) =~= cs);
    let ghost f1 = features;
    set_value(root, "features", TomlValue::Table(features));
    proof {
        let of = get_table(start, "features"@);
        assert forall|k: Seq<char>| #[trigger] get_in(Some(f0), k) == get_in(of, k) by {}
        assert forall|k: Seq<char>| match #[trigger] last_with_feature(cs, k) {
            Some(c) => is_str_array(get(f1, k), seq!["dep:"@ + c.package_name]),
            None => base_feature_ok(of, f1, cs, k),
        } by {
            assert(base_feature_ok(of, f1, cs, k) == base_feature_ok(Some(f0), f1, cs, k));
        }
        assert forall|k: Seq<char>| !seq!["features"@].contains(k) implies #[trigger] get(*root, k) == get_in(Some(start), k) by {
            assert(seq!["features"@][0] == "features"@);
        }
    }
}

/// Whether `new` is `old` with the facade wiring repaired: the dependencies
/// first, then the features.
pub open spec fn wiring_repaired(old: TomlTable, new: TomlTable, cs: Seq<CrateInfoView>) -> bool {
    exists|mid: TomlTable| {
        &&& unchanged_except(Some(old), mid, seq!["dependencies"@])
        &&& match get_table(mid, "dependencies"@) {
            Some(d) => facade_dependencies_ok(get_table(old, "dependencies"@), d, cs),
            None => false,
        }
        &&& unchanged_except(Some(mid), new, seq!["features"@])
        &&& match get_table(new, "features"@) {
            Some(f) => facade_features_ok(get_table(mid, "features"@), f, cs),
            None => false,
        }
    }
}

/// The repairs of a facade's root manifest, each done where selected:
/// workspace shape, workspace dependencies (also for the wiring), package
/// metadata of the facade package, and the facade wiring.
pub open spec fn facade_manifest_repaired(r0: TomlTable, r4: TomlTable, facade: Seq<char>, cs: Seq<CrateInfoView>, repairs: crate::fix_plan::FacadeManifestRepairs) -> bool {
    exists|r1: TomlTable, r2: TomlTable, r3: TomlTable| #[trigger] repair_steps(r0, r1, r2, r3, r4, facade, cs, repairs)
}

/// The selected repairs as steps from `r0` to `r4` through `r1` to `r3`.
pub open spec fn repair_steps(
    r0: TomlTable,
    r1: TomlTable,
    r2: TomlTable,
    r3: TomlTable,
    r4: TomlTable,
    facade: Seq<char>,
    cs: Seq<CrateInfoView>,
    repairs: crate::fix_plan::FacadeManifestRepairs,
) -> bool {
    &&& if repairs.workspace_shape { shape_repaired(r0, r1, facade) } else { r1 == r0 }
    &&& if repairs.workspace_dependencies || repairs.facade_wiring { dependencies_repaired(r1, r2, cs) } else { r2 == r1 }
    &&& if repairs.package_metadata { metadata_repaired(r2, r3, facade, facade, true) } else { r3 == r2 }
    &&& if repairs.facade_wiring { wiring_repaired(r3, r4, cs) } else { r4 == r3 }
}

/// Whether `d0` is the document a repair starts from: empty for blank text,
/// else the parsed text.
pub open spec fn parsed_start(contents: Seq<char>, d0: TomlTable) -> bool {
    if trim(contents).len() == 0 {
        d0.entries@.len() == 0
    } else {
        toml_parse_outcome(contents) == Ok::<TomlTable, Seq<char>>(d0)
    }
}

/// Whether the text of a manifest fails to parse.
pub open spec fn unparsable(contents: Seq<char>) -> bool {
    trim(contents).len() > 0 && toml_parse_outcome(contents) is Err
}

/// Repairs the root manifest of a facade: the repaired text, or the error
/// of parsing or rendering it.
pub fn repair_facade_manifest(
    path: &str,
    original: &str,
    facade_name: &str,
    children: &Vec<CrateInfo>,
    repairs: crate::fix_plan::FacadeManifestRepairs,
) -> (r: Result<String, String>)
    ensures
        unparsable(original@) ==> (r matches Err(m) && m@ == "failed to parse `"@ + path@ + "`: "@ + toml_parse_outcome(original@)->Err_0),
        !unparsable(original@) ==> exists|d0: TomlTable, d4: TomlTable| {
            &&& parsed_start(original@, d0)
            &&& facade_manifest_repaired(d0, d4, facade_name@, info_views(children@), repairs)
            &&& well_keyed(d0) && well_keyed(d4)
            &&& render_manifest_ok(path@, d4, r)
        },
{
    let mut doc = match parse_manifest(path, original) {
        Ok(doc) => doc,
        Err(e) => {
            return Err(e);
        },
    };
    let ghost d0 = doc;
    if repairs.workspace_shape {
        repair_workspace_shape(&mut doc, facade_name);
    }
    let ghost d1 = doc;
    if repairs.workspace_dependencies || repairs.facade_wiring {
        repair_workspace_dependencies(&mut doc, children);
    }
    let ghost d2 = doc;
    if repairs.package_metadata {
        repair_package_metadata(&mut doc, facade_name, facade_name, true);
    }
    let ghost d3 = doc;
    if repairs.facade_wiring {
        repair_facade_dependencies(&mut doc, children);
        let ghost mid = doc;
        repair_facade_features(&mut doc, children);
        assert(wiring_repaired(d3, doc, info_views(children@)));
    }
    let ghost d4 = doc;
    let rendered = render_manifest(path, &doc);
    assert(repair_steps(d0, d1, d2, d3, d4, facade_name@, info_views(children@), repairs));
    assert(facade_manifest_repaired(d0, d4, facade_name@, info_views(children@), repairs));
    assert(parsed_start(original@, d0));
    rendered
}

/// Repairs the manifest of one child crate: its package metadata.
pub fn repair_child_manifest(path: &str, original: &str, facade_name: &str, child: &CrateInfo) -> (r: Result<String, String>)
    ensures
        unparsable(original@) ==> (r matches Err(m) && m@ == "failed to parse `"@ + path@ + "`: "@ + toml_parse_outcome(original@)->Err_0),
        !unparsable(original@) ==> exists|d0: TomlTable, d1: TomlTable| {
            &&& parsed_start(original@, d0)
            &&& metadata_repaired(d0, d1, facade_name@, child.package_name@, false)
            &&& well_keyed(d0) && well_keyed(d1)
            &&& render_manifest_ok(path@, d1, r)
        },
{
    let mut doc = match parse_manifest(path, original) {
        Ok(doc) => doc,
        Err(e) => {
            return Err(e);
        },
    };
    let ghost d0 = doc;
    repair_package_metadata(&mut doc, facade_name, child.package_name.as_str(), false);
    let rendered = render_manifest(path, &doc);
    assert(parsed_start(original@, d0));
    rendered
}

proof fn lemma_workspace_package_self(old: Option<TomlTable>, p: TomlTable, facade: Seq<char>)
    requires
        workspace_package_ok(old, p, facade),
    ensures
        workspace_package_ok(Some(p), p, facade),
{
}

proof fn lemma_clippy_self(old: Option<TomlTable>, c: TomlTable)
    requires
        clippy_ok(old, c),
    ensures
        clippy_ok(Some(c), c),
{
    let groups = clippy_group_keys();
    let levels = clippy_lint_levels();
    assert forall|i: int| 0 <= i < groups.len() implies kept_or(Some(c), c, (#[trigger] groups[i])@, is_lint_table(
        get(c, groups[i]@),
        "warn"@,
        -1i64,
    )) by {
        assert(kept_or(old, c, groups[i]@, is_lint_table(get(c, groups[i]@), "warn"@, -1i64)));
    }
    assert forall|i: int| 0 <= i < levels.len() implies kept_or(Some(c), c, (#[trigger] levels[i]).0@, is_str(
        get(c, levels[i].0@),
        levels[i].1@,
    )) by {
        assert(kept_or(old, c, levels[i].0@, is_str(get(c, levels[i].0@), levels[i].1@)));
    }
}

proof fn lemma_workspace_lints_self(old: Option<TomlTable>, l: TomlTable)
    requires
        workspace_lints_ok(old, l),
    ensures
        workspace_lints_ok(Some(l), l),
{
    lemma_clippy_self(table_in(old, "clippy"@), get_table(l, "clippy"@)->0);
}

proof fn lemma_literal_keys_differ()
    ensures
        "members"@ != "dependencies"@,
        "default-members"@ != "dependencies"@,
        "resolver"@ != "dependencies"@,
        "package"@ != "dependencies"@,
        "lints"@ != "dependencies"@,
        "workspace"@ != "package"@,
        "workspace"@ != "lints"@,
        "workspace"@ != "dependencies"@,
        "workspace"@ != "features"@,
        "package"@ != "features"@,
        "lints"@ != "features"@,
        "dependencies"@ != "features"@,
{
    reveal_strlit("members");
    reveal_strlit("default-members");
    reveal_strlit("resolver");
    reveal_strlit("package");
    reveal_strlit("lints");
    reveal_strlit("dependencies");
    reveal_strlit("workspace");
    reveal_strlit("features");
    lemma_differ_at("members"@, "dependencies"@, 0);
    lemma_differ_at("default-members"@, "dependencies"@, 2);
    lemma_differ_at("resolver"@, "dependencies"@, 0);
    lemma_differ_at("package"@, "dependencies"@, 0);
    lemma_differ_at("lints"@, "dependencies"@, 0);
    lemma_differ_at("workspace"@, "package"@, 0);
    lemma_differ_at("workspace"@, "lints"@, 0);
    lemma_differ_at("workspace"@, "dependencies"@, 0);
    lemma_differ_at("workspace"@, "features"@, 0);
    lemma_differ_at("package"@, "features"@, 0);
    lemma_differ_at("lints"@, "features"@, 0);
    lemma_differ_at("dependencies"@, "features"@, 0);
}

proof fn lemma_workspace_shape_kept(old: Option<TomlTable>, ws: TomlTable, later: TomlTable, facade: Seq<char>)
    requires
        workspace_shape_ok(old, ws, facade),
        forall|k: Seq<char>| k != "dependencies"@ ==> #[trigger] get(later, k) == get(ws, k),
    ensures
        workspace_shape_ok(Some(later), later, facade),
{
    lemma_literal_keys_differ();
    assert(get(later, "members"@) == get(ws, "members"@));
    assert(get(later, "default-members"@) == get(ws, "default-members"@));
    assert(get(later, "resolver"@) == get(ws, "resolver"@));
    assert(get(later, "package"@) == get(ws, "package"@));
    assert(get(later, "lints"@) == get(ws, "lints"@));
    lemma_workspace_package_self(table_in(old, "package"@), get_table(ws, "package"@)->0, facade);
    lemma_workspace_lints_self(table_in(old, "lints"@), get_table(ws, "lints"@)->0);
}

proof fn lemma_metadata_kept(d0: TomlTable, d1: TomlTable, later: TomlTable, facade: Seq<char>, package: Seq<char>, is_facade: bool)
    requires
        metadata_repaired(d0, d1, facade, package, is_facade),
        get(later, "package"@) == get(d1, "package"@),
        get(later, "lints"@) == get(d1, "lints"@),
    ensures
        metadata_repaired(later, later, facade, package, is_facade),
{
    let p = get_table(d1, "package"@)->0;
    assert(package_metadata_ok(get_table(d0, "package"@), p, facade, package, is_facade));
    assert(package_metadata_ok(Some(p), p, facade, package, is_facade));
}

proof fn lemma_wiring_kept(r3: TomlTable, r4: TomlTable, cs: Seq<CrateInfoView>)
    requires
        wiring_repaired(r3, r4, cs),
    ensures
        wiring_repaired(r4, r4, cs),
{
    lemma_literal_keys_differ();
    let mid = choose|mid: TomlTable| {
        &&& unchanged_except(Some(r3), mid, seq!["dependencies"@])
        &&& match get_table(mid, "dependencies"@) {
            Some(d) => facade_dependencies_ok(get_table(r3, "dependencies"@), d, cs),
            None => false,
        }
        &&& unchanged_except(Some(mid), r4, seq!["features"@])
        &&& match get_table(r4, "features"@) {
            Some(f) => facade_features_ok(get_table(mid, "features"@), f, cs),
            None => false,
        }
    };
    assert(get(r4, "dependencies"@) == get(mid, "dependencies"@));
    let d = get_table(mid, "dependencies"@)->0;
    let f = get_table(r4, "features"@)->0;
    assert(facade_dependencies_ok(Some(d), d, cs)) by {
        assert forall|k: Seq<char>| #[trigger] has_named(cs, k) implies (match get(d, k) {
            Some(TomlValue::Table(t)) => wired_dependency_ok(table_in(Some(d), k), t),
            _ => false,
        }) by {
            assert(match get(d, k) {
                Some(TomlValue::Table(t)) => wired_dependency_ok(table_in(get_table(r3, "dependencies"@), k), t),
                _ => false,
            });
        }
    }
    assert(facade_features_ok(Some(f), f, cs)) by {
        assert forall|k: Seq<char>| last_with_feature(cs, k) is None implies #[trigger] base_feature_ok(Some(f), f, cs, k) by {
            assert(base_feature_ok(get_table(mid, "features"@), f, cs, k));
        }
    }
    assert(unchanged_except(Some(r4), r4, seq!["dependencies"@]));
    assert(unchanged_except(Some(r4), r4, seq!["features"@]));
}

/// A repaired facade manifest already meets the conditions of the same
/// repairs: repairing it again may leave it as it is.
pub proof fn lemma_facade_repair_idempotent(
    r0: TomlTable,
    r4: TomlTable,
    facade: Seq<char>,
    cs: Seq<CrateInfoView>,
    repairs: crate::fix_plan::FacadeManifestRepairs,
)
    requires
        facade_manifest_repaired(r0, r4, facade, cs, repairs),
    ensures
        facade_manifest_repaired(r4, r4, facade, cs, repairs),
{
    lemma_literal_keys_differ();
    let (r1, r2, r3) = choose|r1: TomlTable, r2: TomlTable, r3: TomlTable| #[trigger] repair_steps(r0, r1, r2, r3, r4, facade, cs, repairs);
    if repairs.facade_wiring {
        let mid = choose|mid: TomlTable| {
            &&& unchanged_except(Some(r3), mid, seq!["dependencies"@])
            &&& match get_table(mid, "dependencies"@) {
                Some(d) => facade_dependencies_ok(get_table(r3, "dependencies"@), d, cs),
                None => false,
            }
            &&& unchanged_except(Some(mid), r4, seq!["features"@])
            &&& match get_table(r4, "features"@) {
                Some(f) => facade_features_ok(get_table(mid, "features"@), f, cs),
                None => false,
            }
        };
        assert(get(r4, "workspace"@) == get(r3, "workspace"@));
        assert(get(r4, "package"@) == get(r3, "package"@));
        assert(get(r4, "lints"@) == get(r3, "lints"@));
        lemma_wiring_kept(r3, r4, cs);
    }
    assert(get(r4, "workspace"@) == get(r2, "workspace"@));
    if repairs.package_metadata {
        lemma_metadata_kept(r2, r3, r4, facade, facade, true);
    }
    if repairs.workspace_dependencies || repairs.facade_wiring {
        let ws2 = get_table(r2, "workspace"@)->0;
        assert(get_table(r4, "workspace"@) == Some(ws2));
        assert(dependencies_repaired(r4, r4, cs));
    }
    if repairs.workspace_shape {
        let ws1 = get_table(r1, "workspace"@)->0;
        let ws4 = get_table(r2, "workspace"@)->0;
        assert(get_table(r4, "workspace"@) == Some(ws4));
        assert forall|k: Seq<char>| k != "dependencies"@ implies #[trigger] get(ws4, k) == get(ws1, k) by {
            if repairs.workspace_dependencies || repairs.facade_wiring {
                assert(unchanged_except(get_table(r1, "workspace"@), ws4, seq!["dependencies"@]));
            }
        }
        lemma_workspace_shape_kept(get_table(r0, "workspace"@), ws1, ws4, facade);
        assert(shape_repaired(r4, r4, facade));
    }
    assert(repair_steps(r4, r4, r4, r4, r4, facade, cs, repairs));
}

/// A repaired child manifest already meets the conditions of its package
/// metadata repair: repairing it again may leave it as it is.
pub proof fn lemma_child_repair_idempotent(d0: TomlTable, d1: TomlTable, facade: Seq<char>, package: Seq<char>)
    requires
        metadata_repaired(d0, d1, facade, package, false),
    ensures
        metadata_repaired(d1, d1, facade, package, false),
{
    lemma_metadata_kept(d0, d1, d1, facade, package, false);
}


proof fn lemma_str_array_items(items: Seq<TomlValue>, xs: Seq<Seq<char>>)
    requires
        items.len() == xs.len(),
        forall|i: int| 0 <= i < xs.len() ==> is_str(Some(#[trigger] items[i]), xs[i]),
    ensures
        crate::manifest_package::string_items(items) == xs,
    decreases items.len(),
{
    if items.len() > 0 {
        lemma_str_array_items(items.drop_last(), xs.drop_last());
        assert(is_str(Some(items[items.len() - 1]), xs[xs.len() - 1]));
        assert(xs =~= xs.drop_last() + seq![xs.last()]);
    }
}

proof fn lemma_named_in(cs: Seq<CrateInfoView>, k: int)
    requires
        0 <= k < cs.len(),
    ensures
        has_named(cs, cs[k].package_name),
    decreases cs.len(),
{
    if k < cs.len() - 1 && cs.last().package_name != cs[k].package_name {
        lemma_named_in(cs.drop_last(), k);
        assert(cs.drop_last()[k] == cs[k]);
    }
}

proof fn lemma_feature_in(cs: Seq<CrateInfoView>, k: int)
    requires
        0 <= k < cs.len(),
    ensures
        last_with_feature(cs, child_feature_name(cs[k].package_name)) matches Some(c) && child_feature_name(c.package_name)
            == child_feature_name(cs[k].package_name) && exists|j: int| 0 <= j < cs.len() && cs[j] == c,
    decreases cs.len(),
{
    let feature = child_feature_name(cs[k].package_name);
    if child_feature_name(cs.last().package_name) == feature {
        assert(cs[cs.len() - 1] == cs.last());
    } else {
        lemma_feature_in(cs.drop_last(), k);
        assert(cs.drop_last()[k] == cs[k]);
        let c = last_with_feature(cs.drop_last(), feature)->0;
        let j = choose|j: int| 0 <= j < cs.drop_last().len() && cs.drop_last()[j] == c;
        assert(cs[j] == c);
    }
}

proof fn lemma_no_feature(cs: Seq<CrateInfoView>, feature: Seq<char>)
    requires
        forall|i: int| 0 <= i < cs.len() ==> child_feature_name(#[trigger] cs[i].package_name) != feature,
    ensures
        last_with_feature(cs, feature) is None,
    decreases cs.len(),
{
    if cs.len() > 0 {
        assert(child_feature_name(cs[cs.len() - 1].package_name) != feature);
        assert forall|i: int| 0 <= i < cs.drop_last().len() implies child_feature_name(
            #[trigger] cs.drop_last()[i].package_name,
        ) != feature by {
            assert(cs.drop_last()[i] == cs[i]);
        }
        lemma_no_feature(cs.drop_last(), feature);
    }
}

proof fn lemma_dependency_list_clean(d: TomlTable, names: Seq<Seq<char>>)
    requires
        forall|i: int| 0 <= i < names.len() ==> child_dependency_issue(d, #[trigger] names[i]) == Seq::<IssueView>::empty(),
    ensures
        child_dependency_list_issues(d, names) == Seq::<IssueView>::empty(),
    decreases names.len(),
{
    if names.len() > 0 {
        assert forall|i: int| 0 <= i < names.drop_last().len() implies child_dependency_issue(d, #[trigger] names.drop_last()[i])
            == Seq::<IssueView>::empty() by {
            assert(names.drop_last()[i] == names[i]);
        }
        lemma_dependency_list_clean(d, names.drop_last());
        assert(child_dependency_issue(d, names[names.len() - 1]) == Seq::<IssueView>::empty());
        assert(child_dependency_list_issues(d, names) =~= Seq::<IssueView>::empty());
    }
}

proof fn lemma_feature_list_clean(f: TomlTable, names: Seq<Seq<char>>)
    requires
        forall|i: int| 0 <= i < names.len() ==> child_feature_issue(f, #[trigger] names[i]) == Seq::<IssueView>::empty(),
    ensures
        child_feature_list_issues(f, names) == Seq::<IssueView>::empty(),
    decreases names.len(),
{
    if names.len() > 0 {
        assert forall|i: int| 0 <= i < names.drop_last().len() implies child_feature_issue(f, #[trigger] names.drop_last()[i])
            == Seq::<IssueView>::empty() by {
            assert(names.drop_last()[i] == names[i]);
        }
        lemma_feature_list_clean(f, names.drop_last());
        assert(child_feature_issue(f, names[names.len() - 1]) == Seq::<IssueView>::empty());
        assert(child_feature_list_issues(f, names) =~= Seq::<IssueView>::empty());
    }
}

/// A facade whose wiring was repaired passes the wiring checks: every
/// child crate is an optional workspace dependency, `default` is empty,
/// `full` names every child feature and each child's feature enables it.
/// This holds where no two children share a feature name and no child's
/// feature is named `default` or `full`.
pub proof fn lemma_wiring_repair_passes_checks(old: TomlTable, new: TomlTable, cs: Seq<CrateInfoView>, names: Seq<Seq<char>>)
    requires
        wiring_repaired(old, new, cs),
        names == cs.map_values(|c: CrateInfoView| c.package_name),
        forall|i: int, j: int|
            0 <= i < cs.len() && 0 <= j < cs.len() && #[trigger] child_feature_name(cs[i].package_name) == #[trigger] child_feature_name(
                cs[j].package_name,
            ) ==> cs[i].package_name == cs[j].package_name,
        forall|i: int| 0 <= i < cs.len() ==> child_feature_name(#[trigger] cs[i].package_name) != "default"@,
        forall|i: int| 0 <= i < cs.len() ==> child_feature_name(#[trigger] cs[i].package_name) != "full"@,
    ensures
        facade_wiring_issues(new, names) == Seq::<IssueView>::empty(),
{
    lemma_literal_keys_differ();
    let mid = choose|mid: TomlTable| {
        &&& unchanged_except(Some(old), mid, seq!["dependencies"@])
        &&& match get_table(mid, "dependencies"@) {
            Some(d) => facade_dependencies_ok(get_table(old, "dependencies"@), d, cs),
            None => false,
        }
        &&& unchanged_except(Some(mid), new, seq!["features"@])
        &&& match get_table(new, "features"@) {
            Some(f) => facade_features_ok(get_table(mid, "features"@), f, cs),
            None => false,
        }
    };
    assert(get(new, "dependencies"@) == get(mid, "dependencies"@));
    let d = get_table(mid, "dependencies"@)->0;
    let f = get_table(new, "features"@)->0;
    if names.len() > 0 {
        assert forall|i: int| 0 <= i < names.len() implies child_dependency_issue(d, #[trigger] names[i]) == Seq::<IssueView>::empty() by {
            lemma_named_in(cs, i);
            assert(names[i] == cs[i].package_name);
            assert(has_named(cs, names[i]));
        }
        lemma_dependency_list_clean(d, names);
        lemma_no_feature(cs, "default"@);
        lemma_no_feature(cs, "full"@);
        reveal_strlit("default");
        reveal_strlit("full");
        lemma_differ_at("default"@, "full"@, 0);
        assert(base_feature_ok(get_table(mid, "features"@), f, cs, "default"@));
        assert(base_feature_ok(get_table(mid, "features"@), f, cs, "full"@));
        let full_items = get_array(f, "full"@)->0;
        assert(feature_names(cs).len() == cs.len());
        lemma_str_array_items(full_items, feature_names(cs));
        assert(full_feature_names(f) == Some(feature_names(cs)));
        assert forall|i: int| 0 <= i < names.len() implies child_feature_issue(f, #[trigger] names[i]) == Seq::<IssueView>::empty() by {
            let n = names[i];
            assert(n == cs[i].package_name);
            let feature = child_feature_name(n);
            assert(feature_names(cs)[i] == feature);
            lemma_feature_in(cs, i);
            let c = last_with_feature(cs, feature)->0;
            let j = choose|j: int| 0 <= j < cs.len() && cs[j] == c;
            assert(child_feature_name(cs[j].package_name) == child_feature_name(cs[i].package_name));
            assert(c.package_name == n);
            let items = get_array(f, feature)->0;
            lemma_str_array_items(items, seq!["dep:"@ + n]);
            assert(crate::manifest_package::string_items(items)[0] == "dep:"@ + n);
        }
        lemma_feature_list_clean(f, names);
    }
}

} // verus!
