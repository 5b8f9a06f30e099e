//! The whole Markdown report of a facade repository, section after
//! section, and the lines that announce it.

use vstd::prelude::*;
use vstd::string::StringExecFns;

use crate::facade_diagnostics::FacadeDiagnostics;
use crate::facade_issue::{facade_issue_views, FacadeIssueView};
use crate::facade_report::{
    child_crates_text, ci_cd_text, contents_text, crate_documentation_text, diag_errors, diag_status, diag_warnings,
    documentation_surface_text, expected_structure_text, non_standard_text, notes_text, release_text,
    repository_surface_text, shape_text, standard_files_text, summary_text, tooling_text, write_child_crates,
    write_ci_cd_surface, write_contents, write_crate_documentation_consistency, write_detected_facade_shape,
    write_documentation_surface, write_expected_facade_structure, write_non_standard_paths, write_notes,
    write_release_surface, write_repository_surface, write_standard_file_consistency, write_summary,
    write_tooling_configuration,
};
use crate::markdown::{lemma_tallies_unique, row_labels, tallies, TallyRow};
use crate::report_action::{
    action_plan_text, bucket_labels, fixable_code_labels, in_priority_order, lemma_priority_order_unique, tally_rows_text,
    tally_table, write_action_plan,
};
use crate::report_manifest::{
    all_issues, issue_keys, lemma_summarises_unique, manifest_health_text, summarises, write_manifest_health, SummaryRow,
};
use crate::text::{cat2, decimal, usize_text, views};

verus! {

/// The report of a facade, with `groups`, `fixable` and `sorted` as its
/// action plan and `rows` as its manifest issue summary.
pub open spec fn report_text(
    d: FacadeDiagnostics,
    groups: Seq<TallyRow>,
    fixable: Seq<TallyRow>,
    sorted: Seq<FacadeIssueView>,
    rows: Seq<SummaryRow>,
) -> Seq<char> {
    summary_text(d) + contents_text() + action_plan_text(d, groups, fixable, sorted) + expected_structure_text() + shape_text(d)
        + repository_surface_text(d) + manifest_health_text(d, rows) + child_crates_text(d) + crate_documentation_text()
        + standard_files_text(d) + non_standard_text(d) + tooling_text(d) + ci_cd_text(d) + documentation_surface_text()
        + release_text(d) + notes_text()
}

/// Whether `groups`, `fixable`, `sorted` and `rows` are the action plan and
/// manifest issue summary of the diagnostics `d`.
pub open spec fn report_parts(
    d: FacadeDiagnostics,
    groups: Seq<TallyRow>,
    fixable: Seq<TallyRow>,
    sorted: Seq<FacadeIssueView>,
    rows: Seq<SummaryRow>,
) -> bool {
    &&& tallies(bucket_labels(facade_issue_views(d.issues@)), groups)
    &&& tallies(fixable_code_labels(facade_issue_views(d.issues@)), fixable)
    &&& in_priority_order(d.issues@, sorted)
    &&& summarises(issue_keys(all_issues(d.manifest.manifests@)), rows)
}

/// Whether `markdown` is a report of the diagnostics `d`.
pub open spec fn report_of(d: FacadeDiagnostics, markdown: Seq<char>) -> bool {
    exists|groups: Seq<TallyRow>, fixable: Seq<TallyRow>, sorted: Seq<FacadeIssueView>, rows: Seq<SummaryRow>|
        report_parts(d, groups, fixable, sorted, rows) && markdown == report_text(d, groups, fixable, sorted, rows)
}

/// The Markdown report of a facade repository.
pub fn build_report(d: &FacadeDiagnostics) -> (markdown: String)
    ensures
        report_of(*d, markdown@),
{
    let mut markdown = String::new();
    write_summary(&mut markdown, d);
    write_contents(&mut markdown);
    let ghost m0 = markdown@;
    write_action_plan(&mut markdown, d);
    let ghost (groups, fixable, sorted) = choose|groups: Seq<TallyRow>, fixable: Seq<TallyRow>, sorted: Seq<FacadeIssueView>| {
        &&& tallies(bucket_labels(facade_issue_views(d.issues@)), groups)
        &&& tallies(fixable_code_labels(facade_issue_views(d.issues@)), fixable)
        &&& in_priority_order(d.issues@, sorted)
        &&& markdown@ == m0 + action_plan_text(*d, groups, fixable, sorted)
    };
    write_expected_facade_structure(&mut markdown);
    write_detected_facade_shape(&mut markdown, d);
    write_repository_surface(&mut markdown, d);
    let ghost m1 = markdown@;
    write_manifest_health(&mut markdown, d);
    let ghost rows = choose|rows: Seq<SummaryRow>| {
        &&& summarises(issue_keys(all_issues(d.manifest.manifests@)), rows)
        &&& markdown@ == m1 + manifest_health_text(*d, rows)
    };
    write_child_crates(&mut markdown, d);
    write_crate_documentation_consistency(&mut markdown);
    write_standard_file_consistency(&mut markdown, d);
    write_non_standard_paths(&mut markdown, d);
    write_tooling_configuration(&mut markdown, d);
    write_ci_cd_surface(&mut markdown, d);
    write_documentation_surface(&mut markdown);
    write_release_surface(&mut markdown, d);
    write_notes(&mut markdown);
    assert(markdown@ =~= report_text(*d, groups, fixable, sorted, rows));
    assert(report_parts(*d, groups, fixable, sorted, rows));
    markdown
}

proof fn lemma_tally_rows_text_same(a: Seq<TallyRow>, b: Seq<TallyRow>, code: bool)
    requires
        row_labels(a) == row_labels(b),
        forall|i: int| 0 <= i < a.len() ==> (#[trigger] a[i]).count == b[i].count,
    ensures
        tally_rows_text(a, code) == tally_rows_text(b, code),
    decreases a.len(),
{
    assert(a.len() == row_labels(a).len() && b.len() == row_labels(b).len());
    if a.len() > 0 {
        assert(row_labels(a.drop_last()) =~= row_labels(a).drop_last());
        assert(row_labels(b.drop_last()) =~= row_labels(b).drop_last());
        lemma_tally_rows_text_same(a.drop_last(), b.drop_last(), code);
        assert(row_labels(a)[a.len() - 1] == a.last().label@);
        assert(row_labels(b)[b.len() - 1] == b.last().label@);
        assert(a[a.len() - 1].count == b[b.len() - 1].count);
    }
}

proof fn lemma_tallies_text_same(labels: Seq<Seq<char>>, a: Seq<TallyRow>, b: Seq<TallyRow>, title: Seq<char>, header: Seq<char>, code: bool)
    requires
        tallies(labels, a),
        tallies(labels, b),
    ensures
        tally_table(title, header, a, code) == tally_table(title, header, b, code),
{
    lemma_tallies_unique(labels, a, b);
    lemma_tally_rows_text_same(a, b, code);
    assert(a.len() == row_labels(a).len() && b.len() == row_labels(b).len());
}

/// The report of a facade is deterministic: two reports of the same
/// diagnostics are the same text.
pub proof fn lemma_report_deterministic(d: FacadeDiagnostics, m1: Seq<char>, m2: Seq<char>)
    requires
        report_of(d, m1),
        report_of(d, m2),
    ensures
        m1 == m2,
{
    let (g1, f1, s1, r1) = choose|groups: Seq<TallyRow>, fixable: Seq<TallyRow>, sorted: Seq<FacadeIssueView>, rows: Seq<SummaryRow>|
        report_parts(d, groups, fixable, sorted, rows) && m1 == report_text(d, groups, fixable, sorted, rows);
    let (g2, f2, s2, r2) = choose|groups: Seq<TallyRow>, fixable: Seq<TallyRow>, sorted: Seq<FacadeIssueView>, rows: Seq<SummaryRow>|
        report_parts(d, groups, fixable, sorted, rows) && m2 == report_text(d, groups, fixable, sorted, rows);
    lemma_action_plan_same(d, g1, f1, s1, g2, f2, s2);
    lemma_summarises_unique(issue_keys(all_issues(d.manifest.manifests@)), r1, r2);
}

proof fn lemma_action_plan_same(
    d: FacadeDiagnostics,
    g1: Seq<TallyRow>,
    f1: Seq<TallyRow>,
    s1: Seq<FacadeIssueView>,
    g2: Seq<TallyRow>,
    f2: Seq<TallyRow>,
    s2: Seq<FacadeIssueView>,
)
    requires
        tallies(bucket_labels(facade_issue_views(d.issues@)), g1),
        tallies(fixable_code_labels(facade_issue_views(d.issues@)), f1),
        in_priority_order(d.issues@, s1),
        tallies(bucket_labels(facade_issue_views(d.issues@)), g2),
        tallies(fixable_code_labels(facade_issue_views(d.issues@)), f2),
        in_priority_order(d.issues@, s2),
    ensures
        action_plan_text(d, g1, f1, s1) == action_plan_text(d, g2, f2, s2),
{
    let views = facade_issue_views(d.issues@);
    lemma_tallies_text_same(bucket_labels(views), g1, g2, "### Issue Groups\n\n"@, "| Group | Issues |\n"@, false);
    lemma_tallies_text_same(fixable_code_labels(views), f1, f2, "### Fixable Issue Types\n\n"@, "| Code | Count |\n"@, true);
    lemma_priority_order_unique(d.issues@, s1, s2);
}

/// The lines that announce a written facade report, in text.
pub open spec fn report_response_text(d: FacadeDiagnostics, output: Seq<char>) -> Seq<Seq<char>> {
    seq![
        "RustUse facade report - root: "@ + d.facade.root@,
        "status: "@ + diag_status(d),
        "errors: "@ + decimal(diag_errors(d)),
        "warnings: "@ + decimal(diag_warnings(d)),
        "wrote: "@ + output,
    ]
}

/// The lines that announce the report of a facade written to `output`.
pub fn report_response_lines(d: &FacadeDiagnostics, output: &str) -> (lines: Vec<String>)
    ensures
        views(lines@) == report_response_text(*d, output@),
{
    let mut lines: Vec<String> = Vec::new();
    lines.push(cat2("RustUse facade report - root: ", d.facade.root.as_str()));
    lines.push(cat2("status: ", d.status()));
    lines.push(cat2("errors: ", usize_text(d.error_count()).as_str()));
    lines.push(cat2("warnings: ", usize_text(d.warning_count()).as_str()));
    lines.push(cat2("wrote: ", output));
    assert(views(lines@) =~= report_response_text(*d, output@));
    lines
}

/// The file name of a facade report.
pub const REPORT_FILE_NAME: &'static str = "rustuse-report.md";

/// Where the report of a facade is written: in the facade's root.
pub fn default_report_path(root: &str) -> (path: String)
    ensures
        path@ == crate::project::join_path(root@, REPORT_FILE_NAME@),
{
    crate::project::join(root, REPORT_FILE_NAME)
}

/// `true` or `false`.
pub open spec fn bool_text(b: bool) -> Seq<char> {
    if b {
        "true"@
    } else {
        "false"@
    }
}

fn bool_str(b: bool) -> (s: &'static str)
    ensures
        s@ == bool_text(b),
{
    if b {
        "true"
    } else {
        "false"
    }
}

/// The lines of the scan of a facade, in text.
pub open spec fn scan_text(f: crate::facade_model::FacadeInfo) -> Seq<Seq<char>> {
    seq![
        "RustUse facade scan - "@ + f.name@,
        "- root: "@ + f.root@,
        "- git: "@ + crate::markdown::yes_no_text(f.found.git_dir_is_dir),
        "- Cargo.toml: "@ + crate::markdown::yes_no_text(f.found.manifest_is_file),
        "- crates/: "@ + crate::markdown::yes_no_text(f.found.crates_dir_is_dir),
        "- child crates: "@ + decimal(f.crate_manifest_paths@.len()),
        "- status: "@ + crate::facade_issue::status_label(crate::facade_model::shape_status(f.found.manifest_is_file,
            f.found.git_dir_is_dir, f.found.crates_dir_is_dir, f.crate_manifest_paths@.len())),
    ]
}

/// The lines of the scan of a facade.
pub fn scan_lines(f: &crate::facade_model::FacadeInfo) -> (lines: Vec<String>)
    ensures
        views(lines@) == scan_text(*f),
{
    let mut lines: Vec<String> = Vec::new();
    lines.push(cat2("RustUse facade scan - ", f.name.as_str()));
    lines.push(cat2("- root: ", f.root.as_str()));
    lines.push(cat2("- git: ", crate::markdown::yes_no(f.has_git())));
    lines.push(cat2("- Cargo.toml: ", crate::markdown::yes_no(f.has_manifest())));
    lines.push(cat2("- crates/: ", crate::markdown::yes_no(f.has_crates_dir())));
    lines.push(cat2("- child crates: ", usize_text(f.crate_count()).as_str()));
    lines.push(cat2("- status: ", f.status()));
    assert(views(lines@) =~= scan_text(*f));
    lines
}

/// The detail of the scan record of a facade.
pub open spec fn scan_detail_text(f: crate::facade_model::FacadeInfo) -> Seq<char> {
    "facade="@ + f.name@ + ", git="@ + bool_text(f.found.git_dir_is_dir) + ", manifest="@ + bool_text(f.found.manifest_is_file)
        + ", crates_dir="@ + bool_text(f.found.crates_dir_is_dir) + ", child_crates="@ + decimal(f.crate_manifest_paths@.len())
}

/// The detail of the scan record of a facade.
pub fn scan_detail(f: &crate::facade_model::FacadeInfo) -> (detail: String)
    ensures
        detail@ == scan_detail_text(*f),
{
    let mut s = String::from_str("facade=");
    crate::text::push_str(&mut s, f.name.as_str());
    crate::text::push_str(&mut s, ", git=");
    crate::text::push_str(&mut s, bool_str(f.has_git()));
    crate::text::push_str(&mut s, ", manifest=");
    crate::text::push_str(&mut s, bool_str(f.has_manifest()));
    crate::text::push_str(&mut s, ", crates_dir=");
    crate::text::push_str(&mut s, bool_str(f.has_crates_dir()));
    crate::text::push_str(&mut s, ", child_crates=");
    crate::text::push_decimal(&mut s, f.crate_count());
    s
}

} // verus!
