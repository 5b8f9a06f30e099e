//! Building the repair plan of a facade repository from the texts of its
//! manifests: the root manifest is repaired with the selected repairs, the
//! child manifests with their package metadata, and only the files whose
//! contents change are planned, in path order.

use vstd::prelude::*;
use vstd::multiset::Multiset;
use vstd::string::StringExecFns;

use crate::fix_manifest::{
    discover_child_crates, first_failing, included_infos, info_views, parsed_start, render_manifest_ok,
    repair_child_manifest, repair_facade_manifest, source_info, unparsable, facade_manifest_repaired,
    metadata_repaired, ChildSource, CrateInfo, CrateInfoView,
};
use crate::fix_model::{FacadeFixPlan, PlannedFileChange};
use crate::fix_plan::{
    checked_facade_name, codes_selection, facade_name_message, first_unknown_code, group_selection,
    record_file_result, strip_trailing_newlines, unknown_fix_code_message, FacadeManifestRepairs,
    ManifestFixGroup, ManifestFixSelection,
};
use crate::github_model::{facade_name_of, GithubTarget};
use crate::text::{is_prefix, lemma_seq_lt_irreflexive, lemma_seq_lt_transitive, seq_lt, str_eq, text_less, views};
use crate::toml_tree::{toml_parse_outcome, well_keyed};

verus! {

broadcast use vstd::seq_lib::group_to_multiset_ensures;

/// The selection that a repair's codes give: every repair where there are
/// none.
pub open spec fn selection_of(codes: Seq<Seq<char>>) -> Option<ManifestFixSelection> {
    if codes.len() == 0 {
        Some(group_selection(ManifestFixGroup::All))
    } else {
        codes_selection(codes)
    }
}

/// The refusal of a manifest text that does not parse.
pub open spec fn parse_failure(path: Seq<char>, contents: Seq<char>) -> Seq<char> {
    "failed to parse `"@ + path + "`: "@ + toml_parse_outcome(contents)->Err_0
}

/// What repairing the root manifest gives: the refusal of a text that does
/// not parse, else the rendering of the repaired document.
pub open spec fn facade_repair_outcome(
    original: Seq<char>,
    facade: Seq<char>,
    cs: Seq<CrateInfoView>,
    repairs: FacadeManifestRepairs,
    r: Result<String, String>,
) -> bool {
    &&& unparsable(original) ==> (r matches Err(m) && m@ == parse_failure("Cargo.toml"@, original))
    &&& !unparsable(original) ==> exists|d0: crate::toml_tree::TomlTable, d4: crate::toml_tree::TomlTable| {
        &&& parsed_start(original, d0)
        &&& facade_manifest_repaired(d0, d4, facade, cs, repairs)
        &&& well_keyed(d0) && well_keyed(d4)
        &&& render_manifest_ok("Cargo.toml"@, d4, r)
    }
}

/// What repairing a child manifest gives: the refusal of a text that does
/// not parse, else the rendering of its repaired package metadata.
pub open spec fn child_repair_outcome(
    path: Seq<char>,
    original: Seq<char>,
    facade: Seq<char>,
    package: Seq<char>,
    r: Result<String, String>,
) -> bool {
    &&& unparsable(original) ==> (r matches Err(m) && m@ == parse_failure(path, original))
    &&& !unparsable(original) ==> exists|d0: crate::toml_tree::TomlTable, d1: crate::toml_tree::TomlTable| {
        &&& parsed_start(original, d0)
        &&& metadata_repaired(d0, d1, facade, package, false)
        &&& well_keyed(d0) && well_keyed(d1)
        &&& render_manifest_ok(path, d1, r)
    }
}

/// Whether `after` records one inspected file of `before` whose repaired
/// text is `rendered`: unchanged where the text, ending in one line break,
/// equals the current text, else a planned change at `path`.
pub open spec fn records_file(
    before: FacadeFixPlan,
    after: FacadeFixPlan,
    path: Seq<char>,
    created: bool,
    original: Seq<char>,
    rendered: Seq<char>,
) -> bool {
    let text = strip_trailing_newlines(rendered) + seq!['\n'];
    &&& after.root == before.root
    &&& after.files_inspected == before.files_inspected + 1
    &&& text == original ==> {
        &&& after.files_unchanged == before.files_unchanged + 1
        &&& after.changes@ == before.changes@
    }
    &&& text != original ==> {
        &&& after.files_unchanged == before.files_unchanged
        &&& after.changes@.len() == before.changes@.len() + 1
        &&& after.changes@.drop_last() == before.changes@
        &&& after.changes@.last().path@ == path
        &&& after.changes@.last().contents@ == text
        &&& after.changes@.last().created == created
    }
}

/// The text of a file that may not exist: empty where it does not.
pub open spec fn text_or_empty(o: Option<String>) -> Seq<char> {
    match o {
        Some(t) => t@,
        None => Seq::<char>::empty(),
    }
}

/// Plans the repair of the root manifest `Cargo.toml`, whose text is
/// `original` (`None` where the file does not exist yet).
pub fn plan_facade_manifest(
    plan: &mut FacadeFixPlan,
    facade_name: &str,
    children: &Vec<CrateInfo>,
    repairs: FacadeManifestRepairs,
    original: Option<String>,
) -> (r: Result<(), String>)
    requires
        old(plan).files_inspected < usize::MAX,
        old(plan).files_unchanged < usize::MAX,
    ensures
        ({
            let text = text_or_empty(original);
            exists|out: Result<String, String>| {
                &&& facade_repair_outcome(text, facade_name@, info_views(children@), repairs, out)
                &&& match out {
                    Err(e) => r == Err::<(), String>(e) && *final(plan) == *old(plan),
                    Ok(rendered) => r is Ok && records_file(*old(plan), *final(plan), "Cargo.toml"@, original is None, text,
                        rendered@),
                }
            }
        }),
{
    let created = original.is_none();
    let ghost expected = text_or_empty(original);
    let text = match original {
        Some(t) => t,
        None => String::new(),
    };
    assert(text@ == expected);
    let out = repair_facade_manifest("Cargo.toml", text.as_str(), facade_name, children, repairs);
    proof {
        reveal_strlit("Cargo.toml");
    }
    match out {
        Err(e) => {
            assert(facade_repair_outcome(text@, facade_name@, info_views(children@), repairs, Err::<String, String>(e)));
            Err(e)
        },
        Ok(rendered) => {
            let ghost g = rendered;
            assert(facade_repair_outcome(text@, facade_name@, info_views(children@), repairs, Ok::<String, String>(g)));
            plan.files_inspected = plan.files_inspected + 1;
            record_file_result(plan, String::from_str("Cargo.toml"), created, text.as_str(), rendered);
            Ok(())
        },
    }
}

/// Plans the repair of one child manifest at `path`, whose text is
/// `original`.
pub fn plan_child_manifest(
    plan: &mut FacadeFixPlan,
    facade_name: &str,
    child: &CrateInfo,
    path: &str,
    original: &str,
) -> (r: Result<(), String>)
    requires
        old(plan).files_inspected < usize::MAX,
        old(plan).files_unchanged < usize::MAX,
    ensures
        exists|out: Result<String, String>| {
            &&& child_repair_outcome(path@, original@, facade_name@, child.package_name@, out)
            &&& match out {
                Err(e) => r == Err::<(), String>(e) && *final(plan) == *old(plan),
                Ok(rendered) => r is Ok && records_file(*old(plan), *final(plan), path@, false, original@, rendered@),
            }
        },
{
    let out = repair_child_manifest(path, original, facade_name, child);
    match out {
        Err(e) => {
            assert(child_repair_outcome(path@, original@, facade_name@, child.package_name@, Err::<String, String>(e)));
            Err(e)
        },
        Ok(rendered) => {
            let ghost g = rendered;
            assert(child_repair_outcome(path@, original@, facade_name@, child.package_name@, Ok::<String, String>(g)));
            plan.files_inspected = plan.files_inspected + 1;
            record_file_result(plan, path.to_string(), false, original, rendered);
            Ok(())
        },
    }
}

/// Whether no planned change is followed by one whose path precedes its
/// own.
pub open spec fn changes_sorted(s: Seq<PlannedFileChange>) -> bool {
    forall|i: int, j: int| #![trigger s[i], s[j]] 0 <= i < j < s.len() ==> !seq_lt(s[j].path@, s[i].path@)
}

/// Whether `order` lists the indices of `changes` by path, changes with the
/// same path in the order in which they come.
pub open spec fn stable_path_order(changes: Seq<PlannedFileChange>, order: Seq<usize>) -> bool {
    &&& order.len() == changes.len()
    &&& forall|k: int| 0 <= k < order.len() ==> order[k] < changes.len()
    &&& forall|i: int, j: int| #![trigger order[i], order[j]] 0 <= i < j < order.len() ==> {
        ||| seq_lt(changes[order[i] as int].path@, changes[order[j] as int].path@)
        ||| changes[order[i] as int].path@ == changes[order[j] as int].path@ && order[i] < order[j]
    }
}

/// Sorts planned changes by path, keeping the order of changes that tie.
pub fn sort_changes(changes: Vec<PlannedFileChange>) -> (r: Vec<PlannedFileChange>)
    ensures
        changes_sorted(r@),
        r@.to_multiset() == changes@.to_multiset(),
        exists|order: Seq<usize>| {
            &&& stable_path_order(changes@, order)
            &&& r@ == order.map_values(|k: usize| changes@[k as int])
        },
{
    let mut pending = changes;
    let ghost original = pending@;
    let mut sorted: Vec<PlannedFileChange> = Vec::new();
    let ghost mut idx: Seq<usize> = seq![];
    while pending.len() > 0
        invariant
            changes_sorted(sorted@),
            sorted@.to_multiset().add(pending@.to_multiset()) == original.to_multiset(),
            sorted@.len() + pending@.len() == original.len(),
            pending@ == original.subrange(sorted@.len() as int, original.len() as int),
            idx.len() == sorted@.len(),
            forall|k: int| #![trigger idx[k]] 0 <= k < idx.len() ==> idx[k] < sorted@.len() && sorted@[k] == original[idx[k] as int],
            forall|i: int, j: int| #![trigger idx[i], idx[j]] 0 <= i < j < idx.len() ==> {
                ||| seq_lt(original[idx[i] as int].path@, original[idx[j] as int].path@)
                ||| original[idx[i] as int].path@ == original[idx[j] as int].path@ && idx[i] < idx[j]
            },
        decreases pending.len(),
    {
        let ghost before = pending@;
        let ghost n = sorted@.len();
        let item = pending.remove(0);
        proof {
            vstd::seq_lib::to_multiset_remove(before, 0);
            assert(item == original[n as int]);
            assert(pending@ =~= original.subrange(n + 1int, original.len() as int));
        }
        let mut pos: usize = 0;
        let mut found = false;
        while pos < sorted.len() && !found
            invariant
                pos <= sorted.len(),
                forall|k: int| 0 <= k < pos ==> !seq_lt(item.path@, #[trigger] sorted@[k].path@),
                found ==> pos < sorted.len() && seq_lt(item.path@, sorted@[pos as int].path@),
            decreases sorted.len() - pos + if found { 0int } else { 1int },
        {
            if text_less(item.path.as_str(), sorted[pos].path.as_str()) {
                found = true;
            } else {
                pos = pos + 1;
            }
        }
        let ghost old_sorted = sorted@;
        let ghost old_idx = idx;
        proof {
            assert forall|k: int| pos <= k < old_sorted.len() implies seq_lt(item.path@, #[trigger] old_sorted[k].path@) by {
                if k > pos {
                    assert(!seq_lt(old_sorted[k].path@, old_sorted[pos as int].path@));
                    crate::text::lemma_seq_lt_total(old_sorted[k].path@, old_sorted[pos as int].path@);
                    if old_sorted[k].path@ != old_sorted[pos as int].path@ {
                        lemma_seq_lt_transitive(item.path@, old_sorted[pos as int].path@, old_sorted[k].path@);
                    }
                }
            }
            assert forall|k: int| pos <= k < old_sorted.len() implies !seq_lt(#[trigger] old_sorted[k].path@, item.path@) by {
                if seq_lt(old_sorted[k].path@, item.path@) {
                    lemma_seq_lt_transitive(old_sorted[k].path@, item.path@, old_sorted[k].path@);
                    lemma_seq_lt_irreflexive(old_sorted[k].path@);
                }
            }
            vstd::seq_lib::to_multiset_insert(old_sorted, pos as int, item);
            idx = old_idx.insert(pos as int, n as usize);
        }
        sorted.insert(pos, item);
        proof {
            let s = sorted@;
            assert forall|i: int, j: int| 0 <= i < j < s.len() implies !seq_lt(#[trigger] s[j].path@, #[trigger] s[i].path@) by {
                if j < pos {
                    assert(s[i] == old_sorted[i] && s[j] == old_sorted[j]);
                } else if j == pos {
                    assert(s[i] == old_sorted[i]);
                } else if i == pos {
                    assert(s[j] == old_sorted[j - 1]);
                } else if i < pos {
                    assert(s[i] == old_sorted[i] && s[j] == old_sorted[j - 1]);
                } else {
                    assert(s[i] == old_sorted[i - 1] && s[j] == old_sorted[j - 1]);
                }
            }
            assert forall|k: int| #![trigger idx[k]] 0 <= k < idx.len() implies idx[k] < s.len() && s[k] == original[idx[k] as int] by {
                if k < pos {
                    assert(idx[k] == old_idx[k]);
                    assert(s[k] == old_sorted[k]);
                    assert(old_idx[k] < n);
                    assert(old_sorted[k] == original[old_idx[k] as int]);
                } else if k > pos {
                    assert(idx[k] == old_idx[k - 1]);
                    assert(s[k] == old_sorted[k - 1]);
                    assert(old_idx[k - 1] < n);
                    assert(old_sorted[k - 1] == original[old_idx[k - 1] as int]);
                } else {
                    assert(idx[k] == n as usize);
                    assert(s[k] == item);
                }
            }
            assert forall|i: int, j: int| #![trigger idx[i], idx[j]] 0 <= i < j < idx.len() implies {
                ||| seq_lt(original[idx[i] as int].path@, original[idx[j] as int].path@)
                ||| original[idx[i] as int].path@ == original[idx[j] as int].path@ && idx[i] < idx[j]
            } by {
                if j < pos {
                    assert(idx[i] == old_idx[i] && idx[j] == old_idx[j]);
                } else if j == pos {
                    assert(idx[i] == old_idx[i] && s[i] == old_sorted[i]);
                    assert(!seq_lt(item.path@, old_sorted[i].path@));
                    crate::text::lemma_seq_lt_total(item.path@, old_sorted[i].path@);
                } else if i == pos {
                    assert(idx[j] == old_idx[j - 1] && s[j] == old_sorted[j - 1]);
                    assert(seq_lt(item.path@, old_sorted[j - 1].path@));
                } else if i < pos {
                    assert(idx[i] == old_idx[i] && idx[j] == old_idx[j - 1]);
                } else {
                    assert(idx[i] == old_idx[i - 1] && idx[j] == old_idx[j - 1]);
                }
            }
            assert(sorted@.to_multiset() == old_sorted.to_multiset().insert(item));
            assert(before.to_multiset() == pending@.to_multiset().insert(item));
            assert(sorted@.to_multiset().add(pending@.to_multiset()) =~= old_sorted.to_multiset().add(before.to_multiset()));
        }
    }
    proof {
        assert(pending@.to_multiset() =~= Multiset::<PlannedFileChange>::empty());
        assert(sorted@.to_multiset().add(Multiset::<PlannedFileChange>::empty()) =~= sorted@.to_multiset());
        assert(sorted@ =~= idx.map_values(|k: usize| original[k as int]));
        assert(idx.len() == original.len());
        assert forall|k: int| 0 <= k < idx.len() implies idx[k] < original.len() by {}
        assert(stable_path_order(original, idx));
    }
    sorted
}

/// The text a repair writes for a rendered text: ending in one line break.
pub open spec fn written_text(rendered: Seq<char>) -> Seq<char> {
    strip_trailing_newlines(rendered) + seq!['\n']
}

/// The text of the first child manifest at `path`.
pub open spec fn source_text(cs: Seq<ChildSource>, path: Seq<char>) -> Seq<char>
    decreases cs.len(),
{
    if cs.len() == 0 {
        seq![]
    } else if cs[0].manifest_path@ == path {
        cs[0].contents@
    } else {
        source_text(cs.drop_first(), path)
    }
}

proof fn lemma_source_text(cs: Seq<ChildSource>, j: int, path: Seq<char>)
    requires
        0 <= j < cs.len(),
        cs[j].manifest_path@ == path,
        forall|k: int| 0 <= k < j ==> (#[trigger] cs[k]).manifest_path@ != path,
    ensures
        source_text(cs, path) == cs[j].contents@,
    decreases j,
{
    if j > 0 {
        assert forall|k: int| 0 <= k < j - 1 implies (#[trigger] cs.drop_first()[k]).manifest_path@ != path by {
            assert(cs.drop_first()[k] == cs[k + 1]);
        }
        lemma_source_text(cs.drop_first(), j - 1, path);
    }
}

/// A file that a repair inspects: its path relative to the root, whether it
/// does not exist yet, its current text and the text its repair rendered.
pub struct RepairedFile {
    pub path: Seq<char>,
    pub created: bool,
    pub original: Seq<char>,
    pub rendered: Seq<char>,
}

/// The path, contents and creation of each planned change.
pub open spec fn change_views(s: Seq<PlannedFileChange>) -> Seq<(Seq<char>, Seq<char>, bool)> {
    s.map_values(|c: PlannedFileChange| (c.path@, c.contents@, c.created))
}

/// The changes planned for inspected files, in order: one for each file
/// whose repaired text, ending in one line break, differs from its current
/// text.
pub open spec fn changed_files(files: Seq<RepairedFile>) -> Seq<(Seq<char>, Seq<char>, bool)>
    decreases files.len(),
{
    if files.len() == 0 {
        seq![]
    } else {
        let f = files.last();
        changed_files(files.drop_last()) + if written_text(f.rendered) == f.original {
            Seq::<(Seq<char>, Seq<char>, bool)>::empty()
        } else {
            seq![(f.path, written_text(f.rendered), f.created)]
        }
    }
}

/// Whether `f` is the root manifest `Cargo.toml`, whose text is `text`
/// (created where it did not exist), rendered as a repair of it with the
/// crates `cs` and the selected repairs gives.
pub open spec fn root_file(f: RepairedFile, created: bool, text: Seq<char>, name: Seq<char>, cs: Seq<CrateInfoView>, repairs: FacadeManifestRepairs) -> bool {
    &&& f.path == "Cargo.toml"@ && f.created == created && f.original == text
    &&& exists|out: String| out@ == f.rendered && facade_repair_outcome(text, name, cs, repairs, Ok::<String, String>(out))
}

/// Whether `f` is the manifest of crate `c`, with the text of the child
/// source at its path, rendered as a repair of its package metadata gives.
pub open spec fn child_file(f: RepairedFile, name: Seq<char>, c: CrateInfoView, children: Seq<ChildSource>) -> bool {
    &&& f.path == c.manifest_path && !f.created && f.original == source_text(children, c.manifest_path)
    &&& exists|out: String| out@ == f.rendered && child_repair_outcome(f.path, f.original, name, c.package_name, Ok::<String, String>(out))
}

/// Whether `files` are the files a repair inspects, in order: the root
/// manifest, then, where `child_files`, the manifest of each crate of `cs`.
pub open spec fn inspected_files(
    files: Seq<RepairedFile>,
    root_created: bool,
    text: Seq<char>,
    name: Seq<char>,
    cs: Seq<CrateInfoView>,
    repairs: FacadeManifestRepairs,
    children: Seq<ChildSource>,
    child_files: bool,
) -> bool {
    &&& files.len() == 1 + if child_files { cs.len() } else { 0 }
    &&& root_file(files[0], root_created, text, name, cs, repairs)
    &&& forall|j: int| 1 <= j < files.len() ==> child_file(#[trigger] files[j], name, cs[j - 1], children)
}

/// Whether `cs` is `infos` sorted by package name, then directory name,
/// crates that tie in the order in which they come.
pub open spec fn sorted_crates(infos: Seq<CrateInfoView>, cs: Seq<CrateInfoView>) -> bool {
    exists|order: Seq<usize>| crate::fix_manifest::stable_crate_order(infos, order)
        && cs == order.map_values(|k: usize| infos[k as int])
}

/// Whether `files` are the first files a repair inspects, in order: the
/// root manifest, then the manifests of the first crates of `cs`.
pub open spec fn inspected_prefix(
    files: Seq<RepairedFile>,
    root_created: bool,
    text: Seq<char>,
    name: Seq<char>,
    cs: Seq<CrateInfoView>,
    repairs: FacadeManifestRepairs,
    children: Seq<ChildSource>,
) -> bool {
    &&& 1 <= files.len() <= 1 + cs.len()
    &&& root_file(files[0], root_created, text, name, cs, repairs)
    &&& forall|j: int| 1 <= j < files.len() ==> child_file(#[trigger] files[j], name, cs[j - 1], children)
}

/// Whether `e` is the refusal of a repair to render a file it inspects,
/// with the crates `cs`: the root manifest's, or, where child manifests are
/// repaired, that of the manifest of the crate after the files that
/// rendered.
pub open spec fn render_refusal(
    e: String,
    root_created: bool,
    text: Seq<char>,
    name: Seq<char>,
    cs: Seq<CrateInfoView>,
    repairs: FacadeManifestRepairs,
    children: Seq<ChildSource>,
    child_files: bool,
) -> bool {
    ||| facade_repair_outcome(text, name, cs, repairs, Err::<String, String>(e))
    ||| child_files && exists|files: Seq<RepairedFile>| {
        &&& #[trigger] inspected_prefix(files, root_created, text, name, cs, repairs, children)
        &&& files.len() <= cs.len()
        &&& child_repair_outcome(
            cs[files.len() - 1].manifest_path,
            source_text(children, cs[files.len() - 1].manifest_path),
            name,
            cs[files.len() - 1].package_name,
            Err::<String, String>(e),
        )
    }
}

proof fn lemma_child_refusal(
    files: Seq<RepairedFile>,
    e: String,
    root_created: bool,
    text: Seq<char>,
    name: Seq<char>,
    cs: Seq<CrateInfoView>,
    repairs: FacadeManifestRepairs,
    children: Seq<ChildSource>,
)
    requires
        1 <= files.len() <= cs.len(),
        root_file(files[0], root_created, text, name, cs, repairs),
        forall|j: int| 1 <= j < files.len() ==> child_file(#[trigger] files[j], name, cs[j - 1], children),
        child_repair_outcome(
            cs[files.len() - 1].manifest_path,
            source_text(children, cs[files.len() - 1].manifest_path),
            name,
            cs[files.len() - 1].package_name,
            Err::<String, String>(e),
        ),
    ensures
        render_refusal(e, root_created, text, name, cs, repairs, children, true),
{
    assert(inspected_prefix(files, root_created, text, name, cs, repairs, children));
}

/// The refusal of rendering a repaired manifest.
pub open spec fn is_render_failure(e: Seq<char>) -> bool {
    is_prefix("failed to render `"@, e)
}

proof fn lemma_render_failure(path: Seq<char>, d: crate::toml_tree::TomlTable, e: String)
    requires
        render_manifest_ok(path, d, Err::<String, String>(e)),
    ensures
        is_render_failure(e@),
{
    match crate::toml_tree::toml_render_outcome(d) {
        Ok(_) => {},
        Err(x) => {
            assert(e@.subrange(0, 18) =~= "failed to render `"@) by {
                reveal_strlit("failed to render `");
            }
            reveal_strlit("failed to render `");
        },
    }
}

proof fn lemma_no_failing(cs: Seq<ChildSource>, j: int)
    requires
        first_failing(cs) < 0,
        0 <= j < cs.len(),
    ensures
        !unparsable(cs[j].contents@),
    decreases cs.len(),
{
    if j > 0 {
        assert(cs.drop_first()[j - 1] == cs[j]);
        lemma_no_failing(cs.drop_first(), j - 1);
    }
}

proof fn lemma_included_from_source(cs: Seq<ChildSource>, f: Seq<char>, x: CrateInfoView)
    requires
        included_infos(cs, f).contains(x),
    ensures
        exists|j: int| 0 <= j < cs.len() && source_info(#[trigger] cs[j]) == x,
    decreases cs.len(),
{
    if cs.len() > 0 {
        let rest = included_infos(cs.drop_last(), f);
        let i = source_info(cs.last());
        let tail: Seq<CrateInfoView> = if i.dir_name == f || i.package_name == f { seq![] } else { seq![i] };
        assert(included_infos(cs, f) == rest + tail);
        let k = choose|k: int| 0 <= k < included_infos(cs, f).len() && included_infos(cs, f)[k] == x;
        if k < rest.len() {
            assert(rest[k] == x);
            lemma_included_from_source(cs.drop_last(), f, x);
            let j = choose|j: int| 0 <= j < cs.drop_last().len() && source_info(#[trigger] cs.drop_last()[j]) == x;
            assert(cs.drop_last()[j] == cs[j]);
        } else {
            assert(source_info(cs[cs.len() - 1]) == x);
        }
    }
}

proof fn lemma_included_len(cs: Seq<ChildSource>, f: Seq<char>)
    ensures
        included_infos(cs, f).len() <= cs.len(),
    decreases cs.len(),
{
    if cs.len() > 0 {
        lemma_included_len(cs.drop_last(), f);
    }
}

proof fn lemma_record_file(before: FacadeFixPlan, after: FacadeFixPlan, files: Seq<RepairedFile>, f: RepairedFile)
    requires
        records_file(before, after, f.path, f.created, f.original, f.rendered),
        change_views(before.changes@) == changed_files(files),
    ensures
        change_views(after.changes@) == changed_files(files.push(f)),
{
    assert(files.push(f).drop_last() =~= files);
    if written_text(f.rendered) == f.original {
        assert(change_views(after.changes@) =~= change_views(before.changes@));
        assert(changed_files(files.push(f)) =~= changed_files(files));
    } else {
        assert(after.changes@ =~= before.changes@.push(after.changes@.last()));
        assert(change_views(after.changes@) =~= change_views(before.changes@).push((f.path, written_text(f.rendered), f.created)));
    }
}

/// The first source whose manifest path is `path`.
fn find_source(children: &Vec<ChildSource>, path: &str) -> (r: Option<usize>)
    ensures
        match r {
            Some(j) => j < children@.len() && children@[j as int].manifest_path@ == path@
                && forall|k: int| 0 <= k < j ==> (#[trigger] children@[k]).manifest_path@ != path@,
            None => forall|j: int| 0 <= j < children@.len() ==> (#[trigger] children@[j]).manifest_path@ != path@,
        },
{
    let mut j: usize = 0;
    while j < children.len()
        invariant
            j <= children.len(),
            forall|k: int| 0 <= k < j ==> (#[trigger] children@[k]).manifest_path@ != path@,
        decreases children.len() - j,
    {
        if str_eq(children[j].manifest_path.as_str(), path) {
            return Some(j);
        }
        j = j + 1;
    }
    None
}

/// Builds the repair plan of the facade repository at `root` from the text
/// of its root manifest (`None` where it does not exist) and those of the
/// manifests under `crates/`, whose paths are relative to the root.
///
/// The facade is named by the root's last component, which must start with
/// `use-`; the codes select the repairs, all of them where there are none.
/// The root manifest is repaired with the selected repairs and, where they
/// include package metadata, each child manifest with its own, crates in
/// package-name order; only files whose contents change are planned, sorted
/// by path. A manifest that does not parse, or a repaired one that does not
/// render, is refused: the first one met.
pub fn build_plan(
    root: &str,
    codes: &Vec<String>,
    root_manifest: Option<String>,
    children: &Vec<ChildSource>,
) -> (r: Result<FacadeFixPlan, String>)
    requires
        children@.len() < usize::MAX,
    ensures
        ({
            let name = facade_name_of(root@);
            let sel = selection_of(views(codes@));
            let infos = included_infos(children@, name);
            let ff = first_failing(children@);
            let text = text_or_empty(root_manifest);
            &&& !is_prefix("use-"@, name) ==> (r matches Err(e) && e@ == facade_name_message(name))
            &&& is_prefix("use-"@, name) && sel is None ==> (r matches Err(e)
                && e@ == unknown_fix_code_message(first_unknown_code(views(codes@))))
            &&& is_prefix("use-"@, name) && sel is Some && ff >= 0 ==> (r matches Err(e)
                && e@ == parse_failure(children@[ff].manifest_path@, children@[ff].contents@))
            &&& is_prefix("use-"@, name) && sel is Some && ff < 0 && unparsable(text) ==> (r matches Err(e)
                && e@ == parse_failure("Cargo.toml"@, text))
            &&& is_prefix("use-"@, name) && sel is Some && ff < 0 && !unparsable(text) && r is Err ==> (r matches Err(e)
                && is_render_failure(e@) && exists|cs: Seq<CrateInfoView>| sorted_crates(infos, cs) && render_refusal(e,
                root_manifest is None, text, name, cs, sel->0.repairs, children@, sel->0.repair_child_manifests))
            &&& r matches Ok(plan) ==> {
                &&& is_prefix("use-"@, name) && sel is Some && ff < 0 && !unparsable(text)
                &&& plan.root@ == root@
                &&& plan.files_inspected == 1 + if sel->0.repair_child_manifests { infos.len() } else { 0 }
                &&& plan.files_unchanged + plan.changes@.len() == plan.files_inspected
                &&& changes_sorted(plan.changes@)
                &&& exists|cs: Seq<CrateInfoView>, files: Seq<RepairedFile>|
                    #![trigger crate::fix_manifest::crates_sorted(cs), changed_files(files)]
                    {
                    &&& crate::fix_manifest::crates_sorted(cs)
                    &&& cs.to_multiset() == infos.to_multiset()
                    &&& exists|order: Seq<usize>| crate::fix_manifest::stable_crate_order(infos, order)
                        && cs == order.map_values(|k: usize| infos[k as int])
                    &&& inspected_files(files, root_manifest is None, text, name, cs, sel->0.repairs, children@,
                        sel->0.repair_child_manifests)
                    &&& exists|unsorted: Seq<PlannedFileChange>, order: Seq<usize>| {
                        &&& change_views(unsorted) == changed_files(files)
                        &&& stable_path_order(unsorted, order)
                        &&& plan.changes@ == order.map_values(|k: usize| unsorted[k as int])
                    }
                }
            }
        }),
{
    let target = GithubTarget::from_facade_path(root);
    let facade_name = match checked_facade_name(target.facade.as_str()) {
        Ok(n) => n,
        Err(e) => {
            return Err(e);
        },
    };
    let ghost name = facade_name_of(root@);
    let ghost cv = views(codes@);
    let selection = match ManifestFixSelection::from_codes(codes) {
        Ok(s) => s,
        Err(e) => {
            return Err(e);
        },
    };
    assert(selection_of(cv) == Some(selection));
    let crates = match discover_child_crates(children, facade_name.as_str()) {
        Ok(c) => c,
        Err(e) => {
            return Err(e);
        },
    };
    let ghost infos = included_infos(children@, name);
    proof {
        vstd::seq_lib::to_multiset_len(info_views(crates@));
        vstd::seq_lib::to_multiset_len(infos);
        lemma_included_len(children@, name);
    }
    let root_created = root_manifest.is_none();
    let ghost text = text_or_empty(root_manifest);
    let mut plan = FacadeFixPlan { root: root.to_string(), files_inspected: 0, files_unchanged: 0, changes: Vec::new() };
    let ghost plan0 = plan;
    match plan_facade_manifest(&mut plan, facade_name.as_str(), &crates, selection.repairs, root_manifest) {
        Ok(()) => {},
        Err(e) => {
            proof {
                if !unparsable(text) {
                    let out = choose|out: Result<String, String>| {
                        &&& facade_repair_outcome(text, name, info_views(crates@), selection.repairs, out)
                        &&& match out {
                            Err(e2) => Err::<(), String>(e) == Err::<(), String>(e2),
                            Ok(rendered) => false,
                        }
                    };
                    let (d0, d4) = choose|d0: crate::toml_tree::TomlTable, d4: crate::toml_tree::TomlTable| {
                        &&& parsed_start(text, d0)
                        &&& facade_manifest_repaired(d0, d4, name, info_views(crates@), selection.repairs)
                        &&& well_keyed(d0) && well_keyed(d4)
                        &&& render_manifest_ok("Cargo.toml"@, d4, out)
                    };
                    lemma_render_failure("Cargo.toml"@, d4, e);
                    assert(out == Err::<String, String>(e));
                    assert(sorted_crates(infos, info_views(crates@)));
                    assert(render_refusal(e, root_created, text, name, info_views(crates@), selection.repairs, children@,
                        selection.repair_child_manifests));
                }
            }
            return Err(e);
        },
    }
    assert(!unparsable(text));
    let ghost cs = info_views(crates@);
    let ghost reps = selection.repairs;
    let ghost mut files: Seq<RepairedFile> = seq![];
    assert(sorted_crates(infos, cs));
    proof {
        let out = choose|out: Result<String, String>| {
            &&& facade_repair_outcome(text, facade_name@, info_views(crates@), selection.repairs, out)
            &&& match out {
                Err(e) => Ok::<(), String>(()) == Err::<(), String>(e) && plan == plan0,
                Ok(rendered) => records_file(plan0, plan, "Cargo.toml"@, root_created, text, rendered@),
            }
        };
        let rendered = out->Ok_0;
        let f = RepairedFile { path: "Cargo.toml"@, created: root_created, original: text, rendered: rendered@ };
        assert(change_views(plan0.changes@) =~= changed_files(Seq::<RepairedFile>::empty()));
        lemma_record_file(plan0, plan, Seq::<RepairedFile>::empty(), f);
        files = Seq::<RepairedFile>::empty().push(f);
        assert(root_file(files[0], root_created, text, name, cs, reps));
    }
    if selection.repair_child_manifests {
        let mut k: usize = 0;
        while k < crates.len()
            invariant
                k <= crates.len(),
                crates@.len() == infos.len(),
                info_views(crates@).to_multiset() == infos.to_multiset(),
                first_failing(children@) < 0,
                infos == included_infos(children@, name),
                name == facade_name@,
                children@.len() < usize::MAX,
                infos.len() <= children@.len(),
                is_prefix("use-"@, name),
                cv == views(codes@),
                selection_of(cv) == Some(selection),
                !unparsable(text),
                text == text_or_empty(root_manifest),
                name == facade_name_of(root@),
                plan.root@ == root@,
                plan.files_inspected == 1 + k,
                plan.files_unchanged + plan.changes@.len() == plan.files_inspected,
                cs == info_views(crates@),
                reps == selection.repairs,
                files.len() == 1 + k,
                root_file(files[0], root_created, text, name, cs, reps),
                forall|j: int| 1 <= j < files.len() ==> child_file(#[trigger] files[j], name, cs[j - 1], children@),
                change_views(plan.changes@) == changed_files(files),
                sorted_crates(infos, cs),
                selection.repair_child_manifests,
                root_created == root_manifest is None,
            decreases crates.len() - k,
        {
            let child = &crates[k];
            proof {
                assert(info_views(crates@)[k as int] == child@);
                assert(info_views(crates@).contains(child@));
                vstd::seq_lib::to_multiset_contains(info_views(crates@), child@);
                vstd::seq_lib::to_multiset_contains(infos, child@);
                lemma_included_from_source(children@, name, child@);
            }
            let found = find_source(children, child.manifest_path.as_str());
            proof {
                if found is None {
                    let j = choose|j: int| 0 <= j < children@.len() && source_info(#[trigger] children@[j]) == child@;
                    assert(children@[j].manifest_path@ == child.manifest_path@);
                }
            }
            let j = found.unwrap();
            proof {
                lemma_no_failing(children@, j as int);
                lemma_source_text(children@, j as int, child.manifest_path@);
            }
            let ghost before = plan;
            match plan_child_manifest(&mut plan, facade_name.as_str(), child, child.manifest_path.as_str(),
                children[j].contents.as_str()) {
                Ok(()) => {},
                Err(e) => {
                    proof {
                        let src = children@[j as int];
                        let out = choose|out: Result<String, String>| {
                            &&& child_repair_outcome(child.manifest_path@, src.contents@, name, child.package_name@, out)
                            &&& match out {
                                Err(e2) => Err::<(), String>(e) == Err::<(), String>(e2),
                                Ok(rendered) => false,
                            }
                        };
                        let (d0, d1) = choose|d0: crate::toml_tree::TomlTable, d1: crate::toml_tree::TomlTable| {
                            &&& parsed_start(src.contents@, d0)
                            &&& metadata_repaired(d0, d1, name, child.package_name@, false)
                            &&& well_keyed(d0) && well_keyed(d1)
                            &&& render_manifest_ok(child.manifest_path@, d1, out)
                        };
                        lemma_render_failure(child.manifest_path@, d1, e);
                        assert(out == Err::<String, String>(e));
                        assert(cs[k as int] == child@);
                        lemma_child_refusal(files, e, root_created, text, name, cs, reps, children@);
                        assert(sorted_crates(infos, cs));
                    }
                    return Err(e);
                },
            }
            proof {
                assert(cs[k as int] == child@);
                let src = children@[j as int];
                let out = choose|out: Result<String, String>| {
                    &&& child_repair_outcome(child.manifest_path@, src.contents@, name, child.package_name@, out)
                    &&& match out {
                        Err(e) => Ok::<(), String>(()) == Err::<(), String>(e) && plan == before,
                        Ok(rendered) => records_file(before, plan, child.manifest_path@, false, src.contents@, rendered@),
                    }
                };
                let rendered = out->Ok_0;
                let f = RepairedFile { path: child.manifest_path@, created: false, original: src.contents@, rendered: rendered@ };
                let old_files = files;
                files = old_files.push(f);
                assert(child_file(f, name, cs[k as int], children@));
                assert forall|i: int| 1 <= i < files.len() implies child_file(#[trigger] files[i], name, cs[i - 1], children@) by {
                    if i < old_files.len() {
                        assert(files[i] == old_files[i]);
                    }
                }
                lemma_record_file(before, plan, old_files, f);
            }
            k = k + 1;
        }
    }
    let ghost unsorted = plan.changes@;
    let mut changes: Vec<PlannedFileChange> = Vec::new();
    std::mem::swap(&mut changes, &mut plan.changes);
    let sorted = sort_changes(changes);
    proof {
        vstd::seq_lib::to_multiset_len(sorted@);
        vstd::seq_lib::to_multiset_len(unsorted);
    }
    plan.changes = sorted;
    assert(crate::fix_manifest::crates_sorted(cs));
    assert(inspected_files(files, root_created, text, name, cs, reps, children@, selection.repair_child_manifests));
    Ok(plan)
}

} // verus!
