//! Cargo manifest analysis of one facade repository: the workspace root
//! manifest (its `[workspace]` table and the facade package) and the
//! manifest of every child crate under `crates/`.

use vstd::prelude::*;

use crate::catalog::opt_view;
use crate::keyed::{is_key_index_of, sort_dedup_by_key, Keyed};
use crate::codes::FacadeIssueCode;
use crate::manifest_facade::{facade_wiring_issues, validate_facade_dependency_and_feature_wiring};
use crate::manifest_model::{err, issue_views, push_error, push_warning, warn, FacadeManifestReport, IssueView, ManifestFileReport, ManifestIssue, ManifestKind};
use crate::manifest_package::{
    analyze_package_categories, category_issues, collect_category_strings, collected_categories, directory_name_issues,
    docs_rs_issues, homepage_documentation_issues, inheritance_issues, missing_field_issues, package_category_issues,
    package_name_issues, publish_issues, readme_issues, required_package_fields, validate_categories,
    validate_docs_rs_configuration, validate_package_directory_name, validate_package_homepage_and_documentation,
    validate_package_name, validate_package_publish, validate_package_readme, validate_package_version,
    validate_required_package_fields, validate_workspace_inherited_package_fields, version_issues,
};
use crate::manifest_workspace::{
    dep_name, members_issues, members_shape_issues, missing_workspace_field_issues, repository_issues,
    required_workspace_package_fields, resolver_issues, validate_workspace_dependencies, validate_workspace_lints,
    validate_workspace_members, validate_workspace_package_fields, validate_workspace_repository,
    workspace_dependency_issues, workspace_lint_issues, CrateManifestInfo,
};
use vstd::string::StringExecFns;
use vstd::string::StrSliceExecFns;

use crate::text::{cat3, cat4, join, join_seq, lemma_seq_lt_irreflexive, lemma_seq_lt_total, lemma_seq_lt_transitive, seq_lt, str_eq, text_less, views};
use crate::toml_tree::{get, get_str, get_table, parse_toml_document, toml_parse_outcome, TomlTable, TomlValue};

verus! {

/// A manifest file as it was read: the path as it is shown, and its text or
/// the reason it could not be read.
#[derive(Debug)]
pub struct ManifestSource {
    pub display_path: String,
    pub contents: Result<String, String>,
}

/// The parsed document of a manifest and the issues of reading it.
pub open spec fn read_outcome(s: ManifestSource) -> (Option<TomlTable>, Seq<IssueView>) {
    match s.contents {
        Err(e) => (None, seq![err(FacadeIssueCode::ReadManifest, "failed to read `"@ + s.display_path@ + "`: "@ + e@)]),
        Ok(text) => match toml_parse_outcome(text@) {
            Ok(doc) => (Some(doc), seq![]),
            Err(e) => (None, seq![err(FacadeIssueCode::ParseManifest, "failed to parse `"@ + s.display_path@ + "`: "@ + e)]),
        },
    }
}

/// Parses a manifest, reporting a file that could not be read or parsed.
pub fn read_manifest(source: &ManifestSource, issues: &mut Vec<ManifestIssue>) -> (doc: Option<TomlTable>)
    ensures
        doc == read_outcome(*source).0,
        issue_views(final(issues)@) == issue_views(old(issues)@) + read_outcome(*source).1,
{
    let ghost start = issue_views(issues@);
    match &source.contents {
        Err(e) => {
            push_error(issues, FacadeIssueCode::ReadManifest, cat4("failed to read `", source.display_path.as_str(), "`: ", e.as_str()));
            assert(issue_views(issues@) =~= start + read_outcome(*source).1);
            None
        },
        Ok(text) => match parse_toml_document(text.as_str()) {
            Ok(doc) => {
                assert(issue_views(issues@) =~= start + read_outcome(*source).1);
                Some(doc)
            },
            Err(e) => {
                push_error(issues, FacadeIssueCode::ParseManifest, cat4("failed to parse `", source.display_path.as_str(), "`: ", e.as_str()));
                assert(issue_views(issues@) =~= start + read_outcome(*source).1);
                None
            },
        },
    }
}

/// A string field of the `[package]` table of a manifest, where the file
/// was read and parsed and the field is a string.
pub open spec fn source_package_field(s: ManifestSource, key: Seq<char>) -> Option<Seq<char>> {
    match s.contents {
        Ok(text) => match toml_parse_outcome(text@) {
            Ok(doc) => match get_table(doc, "package"@) {
                Some(p) => get_str(p, key),
                None => None,
            },
            Err(_) => None,
        },
        Err(_) => None,
    }
}

fn package_field(doc: &TomlTable, key: &str) -> (r: Option<String>)
    ensures
        opt_view(r) == match get_table(*doc, "package"@) {
            Some(p) => get_str(p, key@),
            None => None,
        },
{
    match doc.get_table("package") {
        Some(p) => match p.get_str(key) {
            Some(s) => Some(s.clone()),
            None => None,
        },
        None => None,
    }
}

/// What the analysis knows of the child crate in directory `dir_name`:
/// the package name and version its manifest gives, where it can be read.
pub fn crate_info(dir_name: &str, source: &ManifestSource) -> (info: CrateManifestInfo)
    ensures
        info.dir_name@ == dir_name@,
        opt_view(info.package_name) == source_package_field(*source, "name"@),
        opt_view(info.version) == source_package_field(*source, "version"@),
{
    let mut package_name: Option<String> = None;
    let mut version: Option<String> = None;
    if let Ok(text) = &source.contents {
        if let Ok(doc) = parse_toml_document(text.as_str()) {
            package_name = package_field(&doc, "name");
            version = package_field(&doc, "version");
        }
    }
    CrateManifestInfo { dir_name: dir_name.to_owned(), package_name, version }
}

/// Whether the dependency names of `s` strictly increase.
pub open spec fn sorted_by_dep_name(s: Seq<CrateManifestInfo>) -> bool {
    forall|i: int, j: int| 0 <= i < j < s.len() ==> seq_lt(dep_name(#[trigger] s[i]), dep_name(#[trigger] s[j]))
}

/// Whether `src[k]` is the last element of `src[..upto]` with its
/// dependency name.
pub open spec fn last_of_its_name(src: Seq<CrateManifestInfo>, k: int, upto: int) -> bool {
    forall|m: int| k < m < upto ==> dep_name(#[trigger] src[m]) != dep_name(src[k])
}

/// Whether `out` holds, sorted by dependency name, for each dependency name
/// of `src[..upto]` the last element there that has it: `wit[j]` is where
/// `out[j]` came from, and `cov[k]` is where the name of `src[k]` is.
pub open spec fn indexed_with(out: Seq<CrateManifestInfo>, src: Seq<CrateManifestInfo>, upto: int, wit: Seq<int>, cov: Seq<int>) -> bool {
    &&& sorted_by_dep_name(out)
    &&& wit.len() == out.len()
    &&& cov.len() == upto
    &&& forall|j: int| 0 <= j < out.len() ==> 0 <= #[trigger] wit[j] < upto && src[wit[j]] == out[j]
        && last_of_its_name(src, wit[j], upto)
    &&& forall|k: int| 0 <= k < upto ==> 0 <= #[trigger] cov[k] < out.len() && dep_name(out[cov[k]]) == dep_name(src[k])
}

/// Whether `out` holds, sorted by dependency name, for each dependency name
/// of `src` the last element of `src` that has it.
pub open spec fn is_crate_index_of(out: Seq<CrateManifestInfo>, src: Seq<CrateManifestInfo>) -> bool {
    exists|wit: Seq<int>, cov: Seq<int>| indexed_with(out, src, src.len() as int, wit, cov)
}

/// Puts `e` into the sorted index `out`: in place of the element with its
/// dependency name, or inserted where its name belongs. Returns the
/// position and whether an element was replaced.
fn place_info(out: &mut Vec<CrateManifestInfo>, e: CrateManifestInfo) -> (r: (usize, bool))
    requires
        sorted_by_dep_name(old(out)@),
    ensures
        r.0 <= old(out)@.len(),
        r.1 ==> r.0 < old(out)@.len() && dep_name(old(out)@[r.0 as int]) == dep_name(e)
            && final(out)@ == old(out)@.update(r.0 as int, e),
        !r.1 ==> final(out)@ == old(out)@.insert(r.0 as int, e)
            && (forall|q: int| 0 <= q < r.0 ==> seq_lt(dep_name(#[trigger] old(out)@[q]), dep_name(e)))
            && (forall|q: int| r.0 <= q < old(out)@.len() ==> seq_lt(dep_name(e), dep_name(#[trigger] old(out)@[q]))),
{
    let ghost outv = out@;
    let ghost ek = dep_name(e);
    let mut p: usize = 0;
    while p < out.len() && text_less(out[p].dependency_name(), e.dependency_name())
        invariant
            p <= out.len(),
            outv == out@,
            ek == dep_name(e),
            forall|q: int| 0 <= q < p ==> seq_lt(dep_name(#[trigger] outv[q]), ek),
        decreases out.len() - p,
    {
        p = p + 1;
    }
    if p < out.len() && str_eq(out[p].dependency_name(), e.dependency_name()) {
        out.set(p, e);
        (p, true)
    } else {
        proof {
            if p < out.len() {
                lemma_seq_lt_total(dep_name(outv[p as int]), ek);
            }
            assert forall|q: int| p <= q < outv.len() implies seq_lt(ek, dep_name(#[trigger] outv[q])) by {
                if q > p {
                    lemma_seq_lt_transitive(ek, dep_name(outv[p as int]), dep_name(outv[q]));
                }
            }
        }
        out.insert(p, e);
        (p, false)
    }
}

proof fn lemma_distinct_from_neighbours(outv: Seq<CrateManifestInfo>, j: int, p: int)
    requires
        sorted_by_dep_name(outv),
        0 <= j < outv.len(),
        0 <= p < outv.len(),
        j != p,
    ensures
        dep_name(outv[j]) != dep_name(outv[p]),
{
    lemma_seq_lt_irreflexive(dep_name(outv[p]));
    if j < p {
        assert(seq_lt(dep_name(outv[j]), dep_name(outv[p])));
    } else {
        assert(seq_lt(dep_name(outv[p]), dep_name(outv[j])));
    }
}

proof fn lemma_replace_extends(
    outv: Seq<CrateManifestInfo>,
    nv: Seq<CrateManifestInfo>,
    src: Seq<CrateManifestInfo>,
    taken: int,
    p: int,
    wit: Seq<int>,
    cov: Seq<int>,
)
    requires
        0 <= taken < src.len(),
        0 <= p < outv.len(),
        indexed_with(outv, src, taken, wit, cov),
        dep_name(outv[p]) == dep_name(src[taken]),
        nv == outv.update(p, src[taken]),
    ensures
        indexed_with(nv, src, taken + 1, wit.update(p, taken), cov.push(p)),
{
    let w2 = wit.update(p, taken);
    let c2 = cov.push(p);
    assert forall|i: int, j: int| 0 <= i < j < nv.len() implies seq_lt(dep_name(#[trigger] nv[i]), dep_name(#[trigger] nv[j])) by {
        assert(dep_name(nv[i]) == dep_name(outv[i]));
        assert(dep_name(nv[j]) == dep_name(outv[j]));
    }
    assert forall|j: int| 0 <= j < nv.len() implies 0 <= #[trigger] w2[j] < taken + 1 && src[w2[j]] == nv[j]
        && last_of_its_name(src, w2[j], taken + 1) by {
        if j != p {
            lemma_distinct_from_neighbours(outv, j, p);
            assert(wit[j] == w2[j]);
            assert(src[wit[j]] == outv[j]);
            assert(last_of_its_name(src, wit[j], taken));
        }
    }
    assert forall|k: int| 0 <= k < taken + 1 implies 0 <= #[trigger] c2[k] < nv.len() && dep_name(nv[c2[k]]) == dep_name(src[k]) by {
        if k < taken {
            assert(c2[k] == cov[k]);
            assert(dep_name(nv[cov[k]]) == dep_name(outv[cov[k]]));
        }
    }
}

proof fn lemma_insert_extends(
    outv: Seq<CrateManifestInfo>,
    nv: Seq<CrateManifestInfo>,
    src: Seq<CrateManifestInfo>,
    taken: int,
    p: int,
    wit: Seq<int>,
    cov: Seq<int>,
)
    requires
        0 <= taken < src.len(),
        0 <= p <= outv.len(),
        indexed_with(outv, src, taken, wit, cov),
        nv == outv.insert(p, src[taken]),
        forall|q: int| 0 <= q < p ==> seq_lt(dep_name(#[trigger] outv[q]), dep_name(src[taken])),
        forall|q: int| p <= q < outv.len() ==> seq_lt(dep_name(src[taken]), dep_name(#[trigger] outv[q])),
    ensures
        indexed_with(
            nv,
            src,
            taken + 1,
            wit.insert(p, taken),
            Seq::new(taken as nat, |k: int| if cov[k] >= p { cov[k] + 1 } else { cov[k] }).push(p),
        ),
{
    let ek = dep_name(src[taken]);
    let w2 = wit.insert(p, taken);
    let c2 = Seq::new(taken as nat, |k: int| if cov[k] >= p { cov[k] + 1 } else { cov[k] }).push(p);
    assert forall|i: int, j: int| 0 <= i < j < nv.len() implies seq_lt(dep_name(#[trigger] nv[i]), dep_name(#[trigger] nv[j])) by {
        if i < p && j > p {
            assert(nv[j] == outv[j - 1]);
            lemma_seq_lt_transitive(dep_name(nv[i]), ek, dep_name(nv[j]));
        } else if i == p && j > p {
            assert(nv[j] == outv[j - 1]);
        } else if i > p {
            assert(nv[i] == outv[i - 1]);
            assert(nv[j] == outv[j - 1]);
        }
    }
    assert forall|j: int| 0 <= j < nv.len() implies 0 <= #[trigger] w2[j] < taken + 1 && src[w2[j]] == nv[j]
        && last_of_its_name(src, w2[j], taken + 1) by {
        if j != p {
            let oj = if j < p { j } else { j - 1 };
            assert(nv[j] == outv[oj]);
            assert(w2[j] == wit[oj]);
            assert(src[wit[oj]] == outv[oj]);
            lemma_seq_lt_irreflexive(ek);
            assert(dep_name(outv[oj]) != ek);
            assert(last_of_its_name(src, wit[oj], taken));
        }
    }
    assert forall|k: int| 0 <= k < taken + 1 implies 0 <= #[trigger] c2[k] < nv.len() && dep_name(nv[c2[k]]) == dep_name(src[k]) by {
        if k < taken {
            let c = cov[k];
            assert(0 <= c < outv.len());
            if c >= p {
                assert(nv[c + 1] == outv[c]);
            } else {
                assert(nv[c] == outv[c]);
            }
        }
    }
}

/// Indexes the child crates by dependency name; where two crates share a
/// name, the later one is kept.
pub fn collect_crate_infos(discovered: Vec<CrateManifestInfo>) -> (infos: Vec<CrateManifestInfo>)
    ensures
        is_crate_index_of(infos@, discovered@),
{
    let ghost src = discovered@;
    let total: usize = discovered.len();
    let mut rest = discovered;
    let mut out: Vec<CrateManifestInfo> = Vec::new();
    let mut taken: usize = 0;
    let ghost mut wit: Seq<int> = Seq::empty();
    let ghost mut cov: Seq<int> = Seq::empty();
    while rest.len() > 0
        invariant
            taken + rest.len() == src.len(),
            src.len() == total,
            rest@ == src.subrange(taken as int, src.len() as int),
            indexed_with(out@, src, taken as int, wit, cov),
        decreases rest.len(),
    {
        let e = rest.remove(0);
        let ghost outv = out@;
        assert(e == src[taken as int]);
        assert(rest@ =~= src.subrange(taken + 1, src.len() as int));
        let (p, replaced) = place_info(&mut out, e);
        proof {
            if replaced {
                lemma_replace_extends(outv, out@, src, taken as int, p as int, wit, cov);
                wit = wit.update(p as int, taken as int);
                cov = cov.push(p as int);
            } else {
                lemma_insert_extends(outv, out@, src, taken as int, p as int, wit, cov);
                wit = wit.insert(p as int, taken as int);
                cov = Seq::new(taken as nat, |k: int| if cov[k] >= p { cov[k] + 1 } else { cov[k] }).push(p as int);
            }
        }
        taken = taken + 1;
    }
    proof {
        assert(taken == src.len());
        assert(indexed_with(out@, src, src.len() as int, wit, cov));
    }
    out
}

/// The dependency names of the crates other than the facade, in order.
pub open spec fn child_names_of(infos: Seq<CrateManifestInfo>, facade_name: Seq<char>) -> Seq<Seq<char>>
    decreases infos.len(),
{
    if infos.len() == 0 {
        seq![]
    } else {
        child_names_of(infos.drop_last(), facade_name) + if dep_name(infos.last()) != facade_name {
            seq![dep_name(infos.last())]
        } else {
            seq![]
        }
    }
}

/// The dependency names of the child crates other than the facade itself.
pub fn child_crate_names(infos: &Vec<CrateManifestInfo>, facade_name: &str) -> (names: Vec<String>)
    ensures
        views(names@) == child_names_of(infos@, facade_name@),
{
    let mut names: Vec<String> = Vec::new();
    let mut i: usize = 0;
    while i < infos.len()
        invariant
            i <= infos.len(),
            views(names@) == child_names_of(infos@.take(i as int), facade_name@),
        decreases infos.len() - i,
    {
        assert(infos@.take(i + 1).drop_last() =~= infos@.take(i as int));
        assert(infos@.take(i + 1).last() == infos@[i as int]);
        let name = infos[i].dependency_name();
        if !str_eq(name, facade_name) {
            let ghost before = views(names@);
            names.push(name.to_owned());
            assert(views(names@) =~= before + seq![name@]);
        }
        assert(views(names@) =~= child_names_of(infos@.take(i + 1), facade_name@));
        i = i + 1;
    }
    assert(infos@.take(i as int) =~= infos@);
    names
}

/// The field name under which workspace categories are reported.
pub open spec fn workspace_categories_field() -> Seq<char> {
    "[workspace.package].categories"@
}

/// The workspace categories of a root manifest and the issues of its
/// `[workspace]` table: resolver, members, dependencies, lints, then
/// `[workspace.package]` (repository, required fields, categories). The
/// categories are known only where `[workspace.package].categories` is an
/// array.
#[verifier::opaque]
pub open spec fn workspace_table_outcome(manifest: TomlTable, facade_name: Seq<char>, infos: Seq<CrateManifestInfo>) -> (Option<Seq<Seq<char>>>, Seq<IssueView>) {
    match get_table(manifest, "workspace"@) {
        None => (None, seq![err(FacadeIssueCode::MissingWorkspace, "workspace root manifest is missing [workspace]"@)]),
        Some(ws) => {
            let head = resolver_issues(ws) + members_shape_issues(ws) + members_issues(ws) + workspace_dependency_issues(ws, infos)
                + workspace_lint_issues(ws);
            match get_table(ws, "package"@) {
                None => (None, head + seq![warn(FacadeIssueCode::MissingWorkspacePackage, "missing [workspace.package]"@)]),
                Some(wp) => {
                    let fields = head + repository_issues(wp, facade_name) + missing_workspace_field_issues(wp, required_workspace_package_fields());
                    match get(wp, "categories"@) {
                        None => (None, fields + seq![warn(FacadeIssueCode::MissingWorkspaceCategories, "missing [workspace.package].categories"@)]),
                        Some(v) => {
                            let collected = collected_categories(v, workspace_categories_field());
                            (collected.0, fields + collected.1 + match collected.0 {
                                Some(c) => category_issues(c, workspace_categories_field()),
                                None => seq![],
                            })
                        },
                    }
                },
            }
        },
    }
}

#[verifier::rlimit(100)]
#[verifier::spinoff_prover]
/// Analyses the `[workspace]` table of the root manifest and returns the
/// workspace categories, where they are an array.
pub fn analyze_workspace_table(manifest: &TomlTable, facade_name: &str, infos: &Vec<CrateManifestInfo>, issues: &mut Vec<ManifestIssue>) -> (categories: Option<Vec<String>>)
    ensures
        match categories {
            Some(c) => workspace_table_outcome(*manifest, facade_name@, infos@).0 == Some(views(c@)),
            None => workspace_table_outcome(*manifest, facade_name@, infos@).0 is None,
        },
        issue_views(final(issues)@) == issue_views(old(issues)@) + workspace_table_outcome(*manifest, facade_name@, infos@).1,
{
    let ghost start = issue_views(issues@);
    let ws = match manifest.get_table("workspace") {
        Some(ws) => ws,
        None => {
            push_error(issues, FacadeIssueCode::MissingWorkspace, "workspace root manifest is missing [workspace]".to_owned());
            proof {
                reveal(workspace_table_outcome);
                assert(issue_views(issues@) =~= start + workspace_table_outcome(*manifest, facade_name@, infos@).1);
            }
            return None;
        },
    };
    let ghost w = *ws;
    validate_workspace_members(ws, issues);
    validate_workspace_dependencies(ws, infos, issues);
    validate_workspace_lints(ws, issues);
    let ghost head = resolver_issues(w) + members_shape_issues(w) + members_issues(w) + workspace_dependency_issues(w, infos@)
        + workspace_lint_issues(w);
    assert(issue_views(issues@) =~= start + head);
    let wp = match ws.get_table("package") {
        Some(wp) => wp,
        None => {
            push_warning(issues, FacadeIssueCode::MissingWorkspacePackage, "missing [workspace.package]".to_owned());
            proof {
                reveal(workspace_table_outcome);
                assert(issue_views(issues@) =~= start + workspace_table_outcome(*manifest, facade_name@, infos@).1);
            }
            return None;
        },
    };
    validate_workspace_repository(wp, facade_name, issues);
    validate_workspace_package_fields(wp, issues);
    let ghost fields = head + repository_issues(*wp, facade_name@) + missing_workspace_field_issues(*wp, required_workspace_package_fields());
    assert(issue_views(issues@) =~= start + fields);
    let value = match wp.get("categories") {
        Some(v) => v,
        None => {
            push_warning(issues, FacadeIssueCode::MissingWorkspaceCategories, "missing [workspace.package].categories".to_owned());
            proof {
                reveal(workspace_table_outcome);
                assert(issue_views(issues@) =~= start + workspace_table_outcome(*manifest, facade_name@, infos@).1);
            }
            return None;
        },
    };
    let categories = collect_category_strings(value, "[workspace.package].categories", issues);
    let ghost collected = collected_categories(*value, workspace_categories_field());
    assert(issue_views(issues@) =~= start + (fields + collected.1));
    if let Some(c) = &categories {
        validate_categories(c, "[workspace.package].categories", issues);
    }
    proof {
        reveal(workspace_table_outcome);
        assert(issue_views(issues@) =~= start + workspace_table_outcome(*manifest, facade_name@, infos@).1);
    }
    categories
}

/// The package name a manifest reports and the issues of its `[package]`
/// table: required fields, name, version, publish, homepage and
/// documentation, readme, inherited fields, docs.rs, the name against its
/// expected directory name, categories, and for the facade package its
/// wiring to the child crates.
#[verifier::opaque]
pub open spec fn package_table_outcome(
    manifest: TomlTable,
    kind: ManifestKind,
    facade_name: Seq<char>,
    child_names: Seq<Seq<char>>,
    expected_dir: Seq<char>,
    workspace_has_categories: bool,
) -> (Option<Seq<char>>, Seq<IssueView>) {
    match get_table(manifest, "package"@) {
        None => (None, seq![err(FacadeIssueCode::MissingPackage, "crate manifest is missing [package]"@)]),
        Some(p) => (
            get_str(p, "name"@),
            missing_field_issues(p, required_package_fields()) + package_name_issues(p, kind, facade_name) + version_issues(p)
                + publish_issues(p) + homepage_documentation_issues(p) + readme_issues(p) + inheritance_issues(p)
                + docs_rs_issues(manifest) + directory_name_issues(p, expected_dir) + package_category_issues(
                p,
                workspace_has_categories,
            ) + if kind == ManifestKind::FacadePackage {
                facade_wiring_issues(manifest, child_names)
            } else {
                seq![]
            },
        ),
    }
}

#[verifier::rlimit(100)]
#[verifier::spinoff_prover]
/// Analyses the `[package]` table of a manifest into `report`: its package
/// name, where the table gives one, and its issues.
pub fn analyze_package_table(
    manifest: &TomlTable,
    kind: ManifestKind,
    facade_name: &str,
    child_names: &Vec<String>,
    expected_dir: &str,
    workspace_has_categories: bool,
    package_name: &mut Option<String>,
    issues: &mut Vec<ManifestIssue>,
)
    ensures
        match get_table(*manifest, "package"@) {
            Some(_) => opt_view(*final(package_name)) == package_table_outcome(*manifest, kind, facade_name@, views(child_names@), expected_dir@, workspace_has_categories).0,
            None => *final(package_name) == *old(package_name),
        },
        issue_views(final(issues)@) == issue_views(old(issues)@) + package_table_outcome(*manifest, kind, facade_name@, views(child_names@), expected_dir@, workspace_has_categories).1,
{
    let ghost start = issue_views(issues@);
    let package = match manifest.get_table("package") {
        Some(p) => p,
        None => {
            push_error(issues, FacadeIssueCode::MissingPackage, "crate manifest is missing [package]".to_owned());
            reveal(package_table_outcome);
            reveal(package_table_outcome);
    assert(issue_views(issues@) =~= start + package_table_outcome(*manifest, kind, facade_name@, views(child_names@), expected_dir@, workspace_has_categories).1);
            return;
        },
    };
    *package_name = match package.get_str("name") {
        Some(n) => Some(n.clone()),
        None => None,
    };
    let ghost p = *package;
    let ghost mut acc: Seq<IssueView> = Seq::empty();
    assert(issue_views(issues@) =~= start + acc);
    validate_required_package_fields(package, issues);
    proof {
        acc = acc + missing_field_issues(p, required_package_fields());
        assert(issue_views(issues@) =~= start + acc);
    }
    validate_package_name(package, kind, facade_name, issues);
    proof {
        acc = acc + package_name_issues(p, kind, facade_name@);
        assert(issue_views(issues@) =~= start + acc);
    }
    validate_package_version(package, issues);
    proof {
        acc = acc + version_issues(p);
        assert(issue_views(issues@) =~= start + acc);
    }
    validate_package_publish(package, issues);
    proof {
        acc = acc + publish_issues(p);
        assert(issue_views(issues@) =~= start + acc);
    }
    validate_package_homepage_and_documentation(package, issues);
    proof {
        acc = acc + homepage_documentation_issues(p);
        assert(issue_views(issues@) =~= start + acc);
    }
    validate_package_readme(package, issues);
    proof {
        acc = acc + readme_issues(p);
        assert(issue_views(issues@) =~= start + acc);
    }
    validate_workspace_inherited_package_fields(package, issues);
    proof {
        acc = acc + inheritance_issues(p);
        assert(issue_views(issues@) =~= start + acc);
    }
    validate_docs_rs_configuration(manifest, issues);
    proof {
        acc = acc + docs_rs_issues(*manifest);
        assert(issue_views(issues@) =~= start + acc);
    }
    validate_package_directory_name(package, expected_dir, issues);
    proof {
        acc = acc + directory_name_issues(p, expected_dir@);
        assert(issue_views(issues@) =~= start + acc);
    }
    analyze_package_categories(package, workspace_has_categories, issues);
    proof {
        acc = acc + package_category_issues(p, workspace_has_categories);
        assert(issue_views(issues@) =~= start + acc);
    }
    if kind == ManifestKind::FacadePackage {
        validate_facade_dependency_and_feature_wiring(manifest, child_names, issues);
        proof {
            acc = acc + facade_wiring_issues(*manifest, views(child_names@));
            assert(issue_views(issues@) =~= start + acc);
        }
    } else {
        proof {
            acc = acc + Seq::<IssueView>::empty();
            assert(issue_views(issues@) =~= start + acc);
        }
    }
    proof {
        reveal(package_table_outcome);
        assert(acc == package_table_outcome(*manifest, kind, facade_name@, views(child_names@), expected_dir@, workspace_has_categories).1);
    }
}

/// The first child crate, in index order, whose directory is `dir`.
pub open spec fn crate_in_dir(infos: Seq<CrateManifestInfo>, dir: Seq<char>) -> Option<CrateManifestInfo>
    decreases infos.len(),
{
    if infos.len() == 0 {
        None
    } else if infos[0].dir_name@ == dir {
        Some(infos[0])
    } else {
        crate_in_dir(infos.drop_first(), dir)
    }
}

/// The child directories, as `crates/<dir>`, whose crate carries the root
/// package's name.
pub open spec fn nested_dirs(dirs: Seq<Seq<char>>, infos: Seq<CrateManifestInfo>, root_name: Seq<char>) -> Seq<Seq<char>>
    decreases dirs.len(),
{
    if dirs.len() == 0 {
        seq![]
    } else {
        nested_dirs(dirs.drop_last(), infos, root_name) + match crate_in_dir(infos, dirs.last()) {
            Some(i) => if opt_view(i.package_name) == Some(root_name) {
                seq!["crates/"@ + dirs.last()]
            } else {
                seq![]
            },
            None => seq![],
        }
    }
}

/// Each text in backticks.
pub open spec fn quoted(items: Seq<Seq<char>>) -> Seq<Seq<char>> {
    items.map_values(|d: Seq<char>| "`"@ + d + "`"@)
}

/// The warning for a facade package that also exists as a child crate.
pub open spec fn nested_message(root_name: Seq<char>, listing: Seq<char>) -> Seq<char> {
    "Facade `"@ + root_name + "` must not also exist as a child crate under `crates/` (matching child directory: "@
        + listing
        + "). Move the Facade package to the repository root and remove the nested package after preserving any required source, metadata, README, examples, and feature wiring."@
}

/// The issue of a root package whose name a child crate also carries.
pub open spec fn nested_issues(manifest: TomlTable, dirs: Seq<Seq<char>>, infos: Seq<CrateManifestInfo>) -> Seq<IssueView> {
    match get_table(manifest, "package"@) {
        Some(p) => match get_str(p, "name"@) {
            Some(root_name) => {
                let found = nested_dirs(dirs, infos, root_name);
                if found.len() == 0 {
                    seq![]
                } else {
                    seq![warn(FacadeIssueCode::NestedFacadePackage, nested_message(root_name, join_seq(quoted(found), ", "@)))]
                }
            },
            None => seq![],
        },
        None => seq![],
    }
}

fn find_crate_in_dir(infos: &Vec<CrateManifestInfo>, dir: &str) -> (r: Option<usize>)
    ensures
        match r {
            Some(i) => i < infos@.len() && crate_in_dir(infos@, dir@) == Some(infos@[i as int]),
            None => crate_in_dir(infos@, dir@) is None,
        },
{
    let mut i: usize = 0;
    assert(infos@.skip(0) =~= infos@);
    while i < infos.len()
        invariant
            i <= infos.len(),
            crate_in_dir(infos@, dir@) == crate_in_dir(infos@.skip(i as int), dir@),
        decreases infos.len() - i,
    {
        assert(infos@.skip(i as int)[0] == infos@[i as int]);
        assert(infos@.skip(i as int).drop_first() =~= infos@.skip(i + 1));
        if str_eq(infos[i].dir_name.as_str(), dir) {
            return Some(i);
        }
        i = i + 1;
    }
    assert(infos@.skip(i as int) =~= Seq::<CrateManifestInfo>::empty());
    None
}

/// Warns where the root package's name is also carried by a child crate,
/// listing the matching child directories in order.
fn validate_nested_facade_package(manifest: &TomlTable, dirs: &Vec<String>, infos: &Vec<CrateManifestInfo>, issues: &mut Vec<ManifestIssue>)
    ensures
        issue_views(final(issues)@) == issue_views(old(issues)@) + nested_issues(*manifest, views(dirs@), infos@),
{
    let ghost start = issue_views(issues@);
    let root_name = match manifest.get_table("package") {
        Some(p) => match p.get_str("name") {
            Some(n) => n,
            None => {
                assert(issue_views(issues@) =~= start + nested_issues(*manifest, views(dirs@), infos@));
                return;
            },
        },
        None => {
            assert(issue_views(issues@) =~= start + nested_issues(*manifest, views(dirs@), infos@));
            return;
        },
    };
    let mut found: Vec<String> = Vec::new();
    let mut i: usize = 0;
    while i < dirs.len()
        invariant
            i <= dirs.len(),
            views(found@) == quoted(nested_dirs(views(dirs@).take(i as int), infos@, root_name@)),
        decreases dirs.len() - i,
    {
        let ghost before = views(dirs@).take(i as int);
        assert(views(dirs@).take(i + 1).drop_last() =~= before);
        assert(views(dirs@).take(i + 1).last() == dirs@[i as int]@);
        let ghost prev = nested_dirs(before, infos@, root_name@);
        match find_crate_in_dir(infos, dirs[i].as_str()) {
            Some(k) => {
                let matches = match &infos[k].package_name {
                    Some(n) => str_eq(n.as_str(), root_name.as_str()),
                    None => false,
                };
                if matches {
                    let entry = cat4("`", "crates/", dirs[i].as_str(), "`");
                    let ghost old_found = views(found@);
                    found.push(entry);
                    proof {
                        let now = nested_dirs(views(dirs@).take(i + 1), infos@, root_name@);
                        assert(now =~= prev + seq!["crates/"@ + dirs@[i as int]@]);
                        assert(views(found@) =~= old_found.push(entry@));
                        assert(entry@ =~= "`"@ + ("crates/"@ + dirs@[i as int]@) + "`"@);
                        assert(quoted(now) =~= quoted(prev).push(entry@));
                    }
                } else {
                    assert(nested_dirs(views(dirs@).take(i + 1), infos@, root_name@) =~= prev);
                }
            },
            None => {
                assert(nested_dirs(views(dirs@).take(i + 1), infos@, root_name@) =~= prev);
            },
        }
        i = i + 1;
    }
    assert(views(dirs@).take(i as int) =~= views(dirs@));
    if found.len() == 0 {
        assert(issue_views(issues@) =~= start + nested_issues(*manifest, views(dirs@), infos@));
        return;
    }
    let listing = join(&found, ", ");
    let mut message = cat3("Facade `", root_name.as_str(), "` must not also exist as a child crate under `crates/` (matching child directory: ");
    message.append(listing.as_str());
    message.append("). Move the Facade package to the repository root and remove the nested package after preserving any required source, metadata, README, examples, and feature wiring.");
    push_warning(issues, FacadeIssueCode::NestedFacadePackage, message);
    assert(issue_views(issues@) =~= start + nested_issues(*manifest, views(dirs@), infos@));
}

/// A child crate's manifest, by the directory under `crates/` it is in.
#[derive(Debug)]
pub struct ChildManifest {
    pub dir_name: String,
    pub source: ManifestSource,
}

impl Keyed for ChildManifest {
    open spec fn key_view(&self) -> Seq<char> {
        self.dir_name@
    }

    fn key(&self) -> (k: &str) {
        self.dir_name.as_str()
    }
}

/// Whether a report has the given path, kind, package name and issues.
pub open spec fn report_is(r: ManifestFileReport, path: Seq<char>, kind: ManifestKind, name: Option<Seq<char>>, issues: Seq<IssueView>) -> bool {
    &&& r.path@ == path
    &&& r.kind == kind
    &&& opt_view(r.package_name) == name
    &&& issue_views(r.issues@) == issues
}

/// The package name a parsed manifest gives.
pub open spec fn doc_package_name(doc: TomlTable) -> Option<Seq<char>> {
    match get_table(doc, "package"@) {
        Some(p) => get_str(p, "name"@),
        None => None,
    }
}

/// The package name of a manifest that was read and parsed.
pub open spec fn source_package_name(s: ManifestSource) -> Option<Seq<char>> {
    match read_outcome(s).0 {
        Some(doc) => doc_package_name(doc),
        None => None,
    }
}

/// The workspace categories of the root manifest, where they are known.
pub open spec fn root_categories(root: Option<ManifestSource>, facade_name: Seq<char>, infos: Seq<CrateManifestInfo>) -> Option<Seq<Seq<char>>> {
    match root {
        None => None,
        Some(src) => match read_outcome(src).0 {
            None => None,
            Some(doc) => workspace_table_outcome(doc, facade_name, infos).0,
        },
    }
}

/// The issues of the root manifest: a missing file; else reading it, then
/// the nested facade package, the `[workspace]` table and the facade's
/// `[package]` table.
pub open spec fn root_issues(
    root: Option<ManifestSource>,
    facade_name: Seq<char>,
    names: Seq<Seq<char>>,
    infos: Seq<CrateManifestInfo>,
    dirs: Seq<Seq<char>>,
) -> Seq<IssueView> {
    match root {
        None => seq![err(FacadeIssueCode::MissingWorkspaceManifest, "missing workspace root Cargo.toml"@)],
        Some(src) => read_outcome(src).1 + match read_outcome(src).0 {
            None => seq![],
            Some(doc) => nested_issues(doc, dirs, infos) + workspace_table_outcome(doc, facade_name, infos).1
                + package_table_outcome(
                doc,
                ManifestKind::FacadePackage,
                facade_name,
                names,
                facade_name,
                workspace_table_outcome(doc, facade_name, infos).0 is Some,
            ).1,
        },
    }
}

/// The package name the root manifest gives, where it can be read.
pub open spec fn root_package_name(root: Option<ManifestSource>) -> Option<Seq<char>> {
    match root {
        None => None,
        Some(src) => source_package_name(src),
    }
}

/// Analyses the workspace root manifest (`None` where it is not a file):
/// its report and the workspace categories.
fn analyze_workspace_root_manifest(
    root: &Option<ManifestSource>,
    facade_name: &str,
    names: &Vec<String>,
    infos: &Vec<CrateManifestInfo>,
    dirs: &Vec<String>,
) -> (r: (ManifestFileReport, Option<Vec<String>>))
    ensures
        report_is(r.0, "Cargo.toml"@, ManifestKind::WorkspaceRoot, root_package_name(*root),
            root_issues(*root, facade_name@, views(names@), infos@, views(dirs@))),
        match r.1 {
            Some(c) => root_categories(*root, facade_name@, infos@) == Some(views(c@)),
            None => root_categories(*root, facade_name@, infos@) is None,
        },
{
    let mut report = ManifestFileReport {
        path: String::from_str("Cargo.toml"),
        kind: ManifestKind::WorkspaceRoot,
        package_name: None,
        issues: Vec::new(),
    };
    let source = match root {
        Some(source) => source,
        None => {
            push_error(&mut report.issues, FacadeIssueCode::MissingWorkspaceManifest, "missing workspace root Cargo.toml".to_owned());
            assert(issue_views(report.issues@) =~= root_issues(*root, facade_name@, views(names@), infos@, views(dirs@)));
            return (report, None);
        },
    };
    let doc = match read_manifest(source, &mut report.issues) {
        Some(doc) => doc,
        None => {
            assert(issue_views(report.issues@) =~= root_issues(*root, facade_name@, views(names@), infos@, views(dirs@)));
            return (report, None);
        },
    };
    let ghost after_read = issue_views(report.issues@);
    validate_nested_facade_package(&doc, dirs, infos, &mut report.issues);
    let categories = analyze_workspace_table(&doc, facade_name, infos, &mut report.issues);
    let has_categories = categories.is_some();
    let mut package_name: Option<String> = None;
    analyze_package_table(&doc, ManifestKind::FacadePackage, facade_name, names, facade_name, has_categories, &mut package_name, &mut report.issues);
    report.package_name = package_name;
    proof {
        reveal(package_table_outcome);
        assert(issue_views(report.issues@) =~= root_issues(*root, facade_name@, views(names@), infos@, views(dirs@)));
    }
    (report, categories)
}

/// The path of a child crate's manifest in a report.
pub open spec fn child_manifest_path(dir: Seq<char>) -> Seq<char> {
    "crates/"@ + dir + "/Cargo.toml"@
}

/// The issues of a child crate's manifest: reading it, then its
/// `[package]` table.
pub open spec fn child_issues(child: ChildManifest, facade_name: Seq<char>, names: Seq<Seq<char>>, workspace_has_categories: bool) -> Seq<IssueView> {
    read_outcome(child.source).1 + match read_outcome(child.source).0 {
        None => seq![],
        Some(doc) => package_table_outcome(
            doc,
            ManifestKind::ChildPackage,
            facade_name,
            names,
            child.dir_name@,
            workspace_has_categories,
        ).1,
    }
}

/// Analyses the manifest of one child crate.
pub fn analyze_package_manifest(child: &ChildManifest, facade_name: &str, names: &Vec<String>, workspace_has_categories: bool) -> (report: ManifestFileReport)
    ensures
        report_is(report, child_manifest_path(child.dir_name@), ManifestKind::ChildPackage, source_package_name(child.source),
            child_issues(*child, facade_name@, views(names@), workspace_has_categories)),
{
    let mut report = ManifestFileReport {
        path: cat3("crates/", child.dir_name.as_str(), "/Cargo.toml"),
        kind: ManifestKind::ChildPackage,
        package_name: None,
        issues: Vec::new(),
    };
    let doc = match read_manifest(&child.source, &mut report.issues) {
        Some(doc) => doc,
        None => {
            assert(issue_views(report.issues@) =~= child_issues(*child, facade_name@, views(names@), workspace_has_categories));
            return report;
        },
    };
    let mut package_name: Option<String> = None;
    analyze_package_table(&doc, ManifestKind::ChildPackage, facade_name, names, child.dir_name.as_str(), workspace_has_categories, &mut package_name, &mut report.issues);
    report.package_name = package_name;
    proof {
        reveal(package_table_outcome);
        assert(issue_views(report.issues@) =~= child_issues(*child, facade_name@, views(names@), workspace_has_categories));
    }
    report
}

/// Whether `info` is what the analysis knows of the crate in `child`.
pub open spec fn info_of(info: CrateManifestInfo, child: ChildManifest) -> bool {
    &&& info.dir_name@ == child.dir_name@
    &&& opt_view(info.package_name) == source_package_field(child.source, "name"@)
    &&& opt_view(info.version) == source_package_field(child.source, "version"@)
}

/// The directories of the children, in order.
pub open spec fn child_dirs(order: Seq<ChildManifest>) -> Seq<Seq<char>> {
    order.map_values(|c: ChildManifest| c.dir_name@)
}

/// Whether `report` is the manifest report of a facade whose children,
/// sorted by directory, are `order`, whose crate facts in that order are
/// `found`, and whose crate index is `infos`: the root report first, then
/// one report per child in directory order.
pub open spec fn repository_report_is(
    report: FacadeManifestReport,
    facade_name: Seq<char>,
    root: Option<ManifestSource>,
    children: Seq<ChildManifest>,
    order: Seq<ChildManifest>,
    found: Seq<CrateManifestInfo>,
    infos: Seq<CrateManifestInfo>,
) -> bool {
    let names = child_names_of(infos, facade_name);
    let ws_has = root_categories(root, facade_name, infos) is Some;
    &&& is_key_index_of(order, children)
    &&& found.len() == order.len()
    &&& forall|i: int| 0 <= i < order.len() ==> info_of(#[trigger] found[i], order[i])
    &&& is_crate_index_of(infos, found)
    &&& report.facade_name@ == facade_name
    &&& report.manifests@.len() == order.len() + 1
    &&& report_is(report.manifests@[0], "Cargo.toml"@, ManifestKind::WorkspaceRoot, root_package_name(root),
        root_issues(root, facade_name, names, infos, child_dirs(order)))
    &&& forall|i: int| 0 <= i < order.len() ==> report_is(#[trigger] report.manifests@[i + 1], child_manifest_path(order[i].dir_name@),
        ManifestKind::ChildPackage, source_package_name(order[i].source), child_issues(order[i], facade_name, names, ws_has))
}

/// Analyses every manifest of a facade repository: the root manifest
/// (`None` where there is no such file) and the manifests of the child
/// crates (each directory under `crates/` that holds a `Cargo.toml`).
pub fn analyze_facade_repository_manifests(facade_name: &str, root: Option<ManifestSource>, children: Vec<ChildManifest>) -> (report: FacadeManifestReport)
    ensures
        exists|order: Seq<ChildManifest>, found: Seq<CrateManifestInfo>, infos: Seq<CrateManifestInfo>|
            repository_report_is(report, facade_name@, root, children@, order, found, infos),
{
    let order = sort_dedup_by_key(children);
    let mut found: Vec<CrateManifestInfo> = Vec::new();
    let mut dirs: Vec<String> = Vec::new();
    let mut i: usize = 0;
    while i < order.len()
        invariant
            i <= order.len(),
            found@.len() == i,
            views(dirs@) == child_dirs(order@).take(i as int),
            forall|k: int| 0 <= k < i ==> info_of(#[trigger] found@[k], order@[k]),
        decreases order.len() - i,
    {
        let info = crate_info(order[i].dir_name.as_str(), &order[i].source);
        found.push(info);
        let ghost before = views(dirs@);
        let dir = order[i].dir_name.clone();
        assert(dir@ == order@[i as int].dir_name@);
        dirs.push(dir);
        assert(views(dirs@) =~= before.push(order@[i as int].dir_name@));
        assert(child_dirs(order@).take(i + 1) =~= child_dirs(order@).take(i as int).push(order@[i as int].dir_name@));
        assert(views(dirs@) =~= child_dirs(order@).take(i + 1));
        i = i + 1;
    }
    assert(child_dirs(order@).take(i as int) =~= child_dirs(order@));
    let ghost found_v = found@;
    let infos = collect_crate_infos(found);
    let names = child_crate_names(&infos, facade_name);
    let (root_report, categories) = analyze_workspace_root_manifest(&root, facade_name, &names, &infos, &dirs);
    let has_categories = categories.is_some();
    let mut manifests: Vec<ManifestFileReport> = Vec::new();
    manifests.push(root_report);
    let mut j: usize = 0;
    while j < order.len()
        invariant
            j <= order.len(),
            manifests@.len() == j + 1,
            report_is(manifests@[0], "Cargo.toml"@, ManifestKind::WorkspaceRoot, root_package_name(root),
                root_issues(root, facade_name@, views(names@), infos@, views(dirs@))),
            forall|k: int| 0 <= k < j ==> report_is(#[trigger] manifests@[k + 1], child_manifest_path(order@[k].dir_name@),
                ManifestKind::ChildPackage, source_package_name(order@[k].source),
                child_issues(order@[k], facade_name@, views(names@), has_categories)),
        decreases order.len() - j,
    {
        let child_report = analyze_package_manifest(&order[j], facade_name, &names, has_categories);
        manifests.push(child_report);
        proof {
            assert forall|k: int| 0 <= k < j + 1 implies report_is(#[trigger] manifests@[k + 1], child_manifest_path(order@[k].dir_name@),
                ManifestKind::ChildPackage, source_package_name(order@[k].source),
                child_issues(order@[k], facade_name@, views(names@), has_categories)) by {
                if k < j {
                    assert(manifests@[k + 1] == manifests@.drop_last()[k + 1]);
                }
            }
        }
        j = j + 1;
    }
    let report = FacadeManifestReport { facade_name: facade_name.to_owned(), manifests };
    assert(repository_report_is(report, facade_name@, root, children@, order@, found_v, infos@));
    report
}

} // verus!
