//! The diagnostics of one facade repository: every issue found in its shape,
//! its standard surface, its manifests, its crates' documentation, its
//! tooling, CI/CD and release surfaces and its non-standard paths, in that
//! order, and the counts and status they give.

use vstd::prelude::*;
use vstd::string::StringExecFns;

use crate::codes::FacadeIssueCode;
use crate::facade_issue::{
    facade_error, facade_issue_views, facade_warning, status_from_counts, worse, FacadeCrateKind, FacadeFixKind,
    FacadeIssue, FacadeIssueSeverity, FacadeIssueView, FacadeStatus,
};
use crate::facade_model::{docs_complete, shape_status, FacadeCrateInfo, FacadeInfo};
use crate::facade_surface::{
    absent, absent_paths, missing_checks, present_checks_of, GitHubWorkflowReport, GitLabReport, NonStandardPathReport,
    ReleaseSurfaceReport, RepositorySurfaceCheck, RepositorySurfaceReport, ToolingSurfaceReport,
};
use crate::manifest_model::{count_status, issue_views, FacadeManifestReport, IssueView, ManifestFileReport, ManifestIssueSeverity};
use crate::project::{join, join_path};
use crate::text::{cat3, cat5, str_eq, views};

verus! {

/// The facade severity of a manifest issue severity.
pub open spec fn facade_severity_of(s: ManifestIssueSeverity) -> FacadeIssueSeverity {
    match s {
        ManifestIssueSeverity::Error => FacadeIssueSeverity::Error,
        ManifestIssueSeverity::Warning => FacadeIssueSeverity::Warning,
    }
}

/// The repair of a manifest issue: workspace lints can be added.
pub open spec fn manifest_fix_of(code: FacadeIssueCode) -> Option<FacadeFixKind> {
    if code == FacadeIssueCode::MissingLintsWorkspace {
        Some(FacadeFixKind::AddWorkspaceLints)
    } else {
        None
    }
}

/// The facade severity of a manifest issue severity.
pub fn facade_severity(s: ManifestIssueSeverity) -> (r: FacadeIssueSeverity)
    ensures
        r == facade_severity_of(s),
{
    match s {
        ManifestIssueSeverity::Error => FacadeIssueSeverity::Error,
        ManifestIssueSeverity::Warning => FacadeIssueSeverity::Warning,
    }
}

/// The repair of a manifest issue code.
pub fn manifest_issue_fix(code: FacadeIssueCode) -> (r: Option<FacadeFixKind>)
    ensures
        r == manifest_fix_of(code),
{
    match code {
        FacadeIssueCode::MissingLintsWorkspace => Some(FacadeFixKind::AddWorkspaceLints),
        _ => None,
    }
}

/// The issues of the facade's shape: git, root manifest, `crates/` and child
/// crates.
pub open spec fn shape_issues(f: FacadeInfo) -> Seq<FacadeIssueView> {
    let crates = join_path(f.root@, "crates"@);
    (if f.found.git_dir_is_dir {
        seq![]
    } else {
        seq![facade_warning(FacadeIssueCode::MissingGitRepository, join_path(f.root@, ".git"@),
            "Initialize or restore the facade `.git` repository."@, None)]
    }) + (if f.found.manifest_is_file {
        seq![]
    } else {
        seq![facade_error(FacadeIssueCode::MissingRootManifest, join_path(f.root@, "Cargo.toml"@),
            "Add the facade root `Cargo.toml`."@, None)]
    }) + (if f.found.crates_dir_is_dir {
        seq![]
    } else {
        seq![facade_warning(FacadeIssueCode::MissingCratesDirectory, crates, "Add the facade `crates/` directory."@,
            Some(FacadeFixKind::RestoreStandardDirectory))]
    }) + (if f.found.crates_dir_is_dir && f.crate_manifest_paths@.len() == 0 {
        seq![facade_warning(FacadeIssueCode::MissingChildCrates, crates,
            "Add child crates under `crates/`, each with its own `Cargo.toml`."@, None)]
    } else {
        seq![]
    })
}

/// The issue of a missing standard path.
pub open spec fn missing_path_issue(root: Seq<char>, c: RepositorySurfaceCheck, code: FacadeIssueCode, noun: Seq<char>, fix: FacadeFixKind) -> FacadeIssueView {
    facade_warning(code, join_path(root, c.path@), "Restore missing required standard "@ + noun + " `"@ + c.path@ + "` ("@ + c.label@ + ")"@, Some(fix))
}

/// The issues of the missing required files and directories.
pub open spec fn surface_issues(root: Seq<char>, repo: RepositorySurfaceReport) -> Seq<FacadeIssueView> {
    missing_checks(repo.files@).map_values(
        |c: RepositorySurfaceCheck| missing_path_issue(root, c, FacadeIssueCode::MissingRequiredFile, "file"@, FacadeFixKind::RestoreStandardFile),
    ) + missing_checks(repo.directories@).map_values(
        |c: RepositorySurfaceCheck|
            missing_path_issue(root, c, FacadeIssueCode::MissingRequiredDirectory, "directory"@, FacadeFixKind::RestoreStandardDirectory),
    )
}

/// A manifest issue as a facade issue at the manifest's path.
pub open spec fn lifted_issue(path: Seq<char>, i: IssueView) -> FacadeIssueView {
    FacadeIssueView {
        severity: facade_severity_of(i.severity),
        code: i.code,
        path: Some(path),
        message: i.message,
        fix: manifest_fix_of(i.code),
    }
}

/// The issues of every manifest, manifest by manifest.
pub open spec fn manifest_issues(ms: Seq<ManifestFileReport>) -> Seq<FacadeIssueView>
    decreases ms.len(),
{
    if ms.len() == 0 {
        seq![]
    } else {
        manifest_issues(ms.drop_last()) + issue_views(ms.last().issues@).map_values(|i: IssueView| lifted_issue(ms.last().path@, i))
    }
}

/// The documentation issues of one crate.
pub open spec fn crate_doc_issues(c: FacadeCrateInfo) -> Seq<FacadeIssueView> {
    (if c.found.readme_is_file {
        seq![]
    } else {
        seq![facade_warning(FacadeIssueCode::MissingPackageReadmeFile, c.readme_path@,
            "Add `README.md` for crate `"@ + c.name@ + "`."@, Some(FacadeFixKind::RestoreStandardFile))]
    }) + (if c.found.lib_is_file {
        seq![]
    } else {
        seq![facade_warning(FacadeIssueCode::MissingCrateLib, c.lib_path@,
            "Add `src/lib.rs` for crate `"@ + c.name@ + "`."@, Some(FacadeFixKind::RestoreStandardFile))]
    }) + (if c.kind == FacadeCrateKind::Facade && !c.found.prelude_is_file {
        seq![facade_warning(FacadeIssueCode::MissingFacadePrelude, c.prelude_path@, "Add facade `src/prelude.rs`."@,
            Some(FacadeFixKind::RestoreStandardFile))]
    } else {
        seq![]
    })
}

/// The documentation issues of every crate, crate by crate.
pub open spec fn doc_issues(cs: Seq<FacadeCrateInfo>) -> Seq<FacadeIssueView>
    decreases cs.len(),
{
    if cs.len() == 0 {
        seq![]
    } else {
        doc_issues(cs.drop_last()) + crate_doc_issues(cs.last())
    }
}

/// The issues of missing surface paths, each with the given code, message
/// around the path, and repair.
pub open spec fn absent_issues(root: Seq<char>, paths: Seq<Seq<char>>, code: FacadeIssueCode, before: Seq<char>, after: Seq<char>, fix: FacadeFixKind) -> Seq<FacadeIssueView> {
    paths.map_values(|p: Seq<char>| facade_warning(code, join_path(root, p), before + p + after, Some(fix)))
}

/// The issues of the non-standard paths that exist.
pub open spec fn non_standard_issues(root: Seq<char>, r: NonStandardPathReport) -> Seq<FacadeIssueView> {
    present_checks_of(r.checks@).map_values(
        |c: crate::facade_surface::NonStandardPathCheck|
            facade_warning(FacadeIssueCode::NonStandardPath, join_path(root, c.path@), c.recommendation@, Some(FacadeFixKind::RemoveNonStandardPath)),
    )
}

/// Every issue of a facade, in order: shape, standard surface, manifests,
/// crate documentation, tooling, GitHub CI/CD, release, release CI/CD and
/// non-standard paths.
pub open spec fn diagnostics_issues(
    f: FacadeInfo,
    manifest: FacadeManifestReport,
    repository: RepositorySurfaceReport,
    github: GitHubWorkflowReport,
    release: ReleaseSurfaceReport,
    tooling: ToolingSurfaceReport,
    non_standard: NonStandardPathReport,
    crates: Seq<FacadeCrateInfo>,
) -> Seq<FacadeIssueView> {
    let root = f.root@;
    shape_issues(f) + surface_issues(root, repository) + manifest_issues(manifest.manifests@) + doc_issues(crates)
        + absent_issues(root, absent_paths(tooling.surface@), FacadeIssueCode::MissingToolingSurface,
        "Restore missing tooling surface `"@, "`."@, FacadeFixKind::RestoreStandardFile)
        + absent_issues(root, absent_paths(github.required_surface@), FacadeIssueCode::MissingGithubCiCdSurface,
        "Restore missing required GitHub CI/CD file `"@, "`."@, FacadeFixKind::RestoreGithubWorkflow)
        + absent_issues(root, absent_paths(release.surface@), FacadeIssueCode::MissingReleaseSurface,
        "Restore missing release surface file `"@, "`."@, FacadeFixKind::RestoreStandardFile)
        + absent_issues(root, absent_paths(release.ci_surface@), FacadeIssueCode::MissingReleaseCiSurface,
        "Restore missing release CI/CD surface file `"@, "`."@, FacadeFixKind::RestoreGithubWorkflow)
        + non_standard_issues(root, non_standard)
}

fn push_issue(issues: &mut Vec<FacadeIssue>, issue: FacadeIssue)
    ensures
        facade_issue_views(final(issues)@) == facade_issue_views(old(issues)@).push(issue@),
{
    issues.push(issue);
    assert(facade_issue_views(final(issues)@) =~= facade_issue_views(old(issues)@).push(issue@));
}

fn push_warning(issues: &mut Vec<FacadeIssue>, code: FacadeIssueCode, path: String, message: String, fix: Option<FacadeFixKind>)
    ensures
        facade_issue_views(final(issues)@) == facade_issue_views(old(issues)@).push(facade_warning(code, path@, message@, fix)),
{
    let issue = FacadeIssue { severity: FacadeIssueSeverity::Warning, code, path: Some(path), message, fix };
    push_issue(issues, issue);
}

fn collect_facade_shape_issues(f: &FacadeInfo, issues: &mut Vec<FacadeIssue>)
    ensures
        facade_issue_views(final(issues)@) == facade_issue_views(old(issues)@) + shape_issues(*f),
{
    let ghost start = facade_issue_views(issues@);
    if !f.has_git() {
        push_warning(issues, FacadeIssueCode::MissingGitRepository, join(f.root.as_str(), ".git"),
            String::from_str("Initialize or restore the facade `.git` repository."), None);
    }
    if !f.has_manifest() {
        let issue = FacadeIssue {
            severity: FacadeIssueSeverity::Error,
            code: FacadeIssueCode::MissingRootManifest,
            path: Some(join(f.root.as_str(), "Cargo.toml")),
            message: String::from_str("Add the facade root `Cargo.toml`."),
            fix: None,
        };
        push_issue(issues, issue);
    }
    if !f.has_crates_dir() {
        push_warning(issues, FacadeIssueCode::MissingCratesDirectory, join(f.root.as_str(), "crates"),
            String::from_str("Add the facade `crates/` directory."), Some(FacadeFixKind::RestoreStandardDirectory));
    }
    if f.has_crates_dir() && !f.has_child_crates() {
        push_warning(issues, FacadeIssueCode::MissingChildCrates, join(f.root.as_str(), "crates"),
            String::from_str("Add child crates under `crates/`, each with its own `Cargo.toml`."), None);
    }
    assert(facade_issue_views(issues@) =~= start + shape_issues(*f));
}

fn push_missing_paths(
    issues: &mut Vec<FacadeIssue>,
    root: &str,
    checks: &Vec<RepositorySurfaceCheck>,
    code: FacadeIssueCode,
    noun: &str,
    fix: FacadeFixKind,
)
    ensures
        facade_issue_views(final(issues)@) == facade_issue_views(old(issues)@) + checks@.map_values(
            |c: RepositorySurfaceCheck| missing_path_issue(root@, c, code, noun@, fix),
        ),
{
    let ghost start = facade_issue_views(issues@);
    let ghost all = checks@.map_values(|c: RepositorySurfaceCheck| missing_path_issue(root@, c, code, noun@, fix));
    let mut i: usize = 0;
    while i < checks.len()
        invariant
            i <= checks.len(),
            all == checks@.map_values(|c: RepositorySurfaceCheck| missing_path_issue(root@, c, code, noun@, fix)),
            facade_issue_views(issues@) == start + all.take(i as int),
        decreases checks.len() - i,
    {
        let c = checks[i];
        let head = cat3("Restore missing required standard ", noun, " `");
        let message = cat5(head.as_str(), c.path, "` (", c.label, ")");
        push_warning(issues, code, join(root, c.path), message, Some(fix));
        assert(all.take(i + 1) =~= all.take(i as int).push(all[i as int]));
        i = i + 1;
    }
    assert(all.take(i as int) =~= all);
}

fn push_absent_paths(
    issues: &mut Vec<FacadeIssue>,
    root: &str,
    paths: &Vec<String>,
    code: FacadeIssueCode,
    before: &str,
    after: &str,
    fix: FacadeFixKind,
)
    ensures
        facade_issue_views(final(issues)@) == facade_issue_views(old(issues)@) + absent_issues(root@, views(paths@), code, before@, after@, fix),
{
    let ghost start = facade_issue_views(issues@);
    let ghost all = absent_issues(root@, views(paths@), code, before@, after@, fix);
    let mut i: usize = 0;
    while i < paths.len()
        invariant
            i <= paths.len(),
            all == absent_issues(root@, views(paths@), code, before@, after@, fix),
            facade_issue_views(issues@) == start + all.take(i as int),
        decreases paths.len() - i,
    {
        let p = paths[i].as_str();
        push_warning(issues, code, join(root, p), cat3(before, p, after), Some(fix));
        assert(all.take(i + 1) =~= all.take(i as int).push(all[i as int]));
        i = i + 1;
    }
    assert(all.take(i as int) =~= all);
}

fn collect_manifest_issues(manifests: &Vec<ManifestFileReport>, issues: &mut Vec<FacadeIssue>)
    ensures
        facade_issue_views(final(issues)@) == facade_issue_views(old(issues)@) + manifest_issues(manifests@),
{
    let ghost start = facade_issue_views(issues@);
    let mut i: usize = 0;
    while i < manifests.len()
        invariant
            i <= manifests.len(),
            facade_issue_views(issues@) == start + manifest_issues(manifests@.take(i as int)),
        decreases manifests.len() - i,
    {
        assert(manifests@.take(i + 1).drop_last() =~= manifests@.take(i as int));
        let m = &manifests[i];
        let ghost lifted = issue_views(m.issues@).map_values(|iv: IssueView| lifted_issue(m.path@, iv));
        let ghost head = facade_issue_views(issues@);
        let mut j: usize = 0;
        while j < m.issues.len()
            invariant
                j <= m.issues.len(),
                lifted == issue_views(m.issues@).map_values(|iv: IssueView| lifted_issue(m.path@, iv)),
                facade_issue_views(issues@) == head + lifted.take(j as int),
            decreases m.issues.len() - j,
        {
            let issue = &m.issues[j];
            let fi = FacadeIssue {
                severity: facade_severity(issue.severity),
                code: issue.code,
                path: Some(m.path.clone()),
                message: issue.message.clone(),
                fix: manifest_issue_fix(issue.code),
            };
            push_issue(issues, fi);
            assert(lifted.take(j + 1) =~= lifted.take(j as int).push(lifted[j as int]));
            j = j + 1;
        }
        assert(lifted.take(j as int) =~= lifted);
        assert(facade_issue_views(issues@) =~= start + manifest_issues(manifests@.take(i + 1)));
        i = i + 1;
    }
    assert(manifests@.take(i as int) =~= manifests@);
}

fn collect_crate_documentation_issues(crates: &Vec<FacadeCrateInfo>, issues: &mut Vec<FacadeIssue>)
    ensures
        facade_issue_views(final(issues)@) == facade_issue_views(old(issues)@) + doc_issues(crates@),
{
    let ghost start = facade_issue_views(issues@);
    let mut i: usize = 0;
    while i < crates.len()
        invariant
            i <= crates.len(),
            facade_issue_views(issues@) == start + doc_issues(crates@.take(i as int)),
        decreases crates.len() - i,
    {
        assert(crates@.take(i + 1).drop_last() =~= crates@.take(i as int));
        let c = &crates[i];
        let ghost head = facade_issue_views(issues@);
        if !c.readme_present() {
            push_warning(issues, FacadeIssueCode::MissingPackageReadmeFile, c.readme_path.clone(),
                cat3("Add `README.md` for crate `", c.name.as_str(), "`."), Some(FacadeFixKind::RestoreStandardFile));
        }
        if !c.lib_present() {
            push_warning(issues, FacadeIssueCode::MissingCrateLib, c.lib_path.clone(),
                cat3("Add `src/lib.rs` for crate `", c.name.as_str(), "`."), Some(FacadeFixKind::RestoreStandardFile));
        }
        if c.requires_prelude() && !c.prelude_present() {
            push_warning(issues, FacadeIssueCode::MissingFacadePrelude, c.prelude_path.clone(),
                String::from_str("Add facade `src/prelude.rs`."), Some(FacadeFixKind::RestoreStandardFile));
        }
        assert(facade_issue_views(issues@) =~= head + crate_doc_issues(crates@[i as int]));
        assert(facade_issue_views(issues@) =~= start + doc_issues(crates@.take(i + 1)));
        i = i + 1;
    }
    assert(crates@.take(i as int) =~= crates@);
}

fn collect_non_standard_path_issues(root: &str, report: &NonStandardPathReport, issues: &mut Vec<FacadeIssue>)
    ensures
        facade_issue_views(final(issues)@) == facade_issue_views(old(issues)@) + non_standard_issues(root@, *report),
{
    let ghost start = facade_issue_views(issues@);
    let present = report.present_checks();
    let ghost all = non_standard_issues(root@, *report);
    let mut i: usize = 0;
    while i < present.len()
        invariant
            i <= present.len(),
            present@ == present_checks_of(report.checks@),
            all == non_standard_issues(root@, *report),
            facade_issue_views(issues@) == start + all.take(i as int),
        decreases present.len() - i,
    {
        let c = present[i];
        push_warning(issues, FacadeIssueCode::NonStandardPath, join(root, c.path), c.recommendation.to_owned(),
            Some(FacadeFixKind::RemoveNonStandardPath));
        assert(all.take(i + 1) =~= all.take(i as int).push(all[i as int]));
        i = i + 1;
    }
    assert(all.take(i as int) =~= all);
}

/// How many issues of `s` have severity `sev`.
pub open spec fn count_facade_severity(s: Seq<FacadeIssueView>, sev: FacadeIssueSeverity) -> nat
    decreases s.len(),
{
    if s.len() == 0 {
        0
    } else {
        count_facade_severity(s.drop_last(), sev) + if s.last().severity == sev { 1nat } else { 0nat }
    }
}

/// How many issues of `s` have a repair.
pub open spec fn count_fixable(s: Seq<FacadeIssueView>) -> nat
    decreases s.len(),
{
    if s.len() == 0 {
        0
    } else {
        count_fixable(s.drop_last()) + if s.last().fix is Some { 1nat } else { 0nat }
    }
}

proof fn lemma_count_facade_bound(s: Seq<FacadeIssueView>, sev: FacadeIssueSeverity)
    ensures
        count_facade_severity(s, sev) <= s.len(),
        count_fixable(s) <= s.len(),
    decreases s.len(),
{
    if s.len() > 0 {
        lemma_count_facade_bound(s.drop_last(), sev);
    }
}

/// One row of the child crate table of a facade report.
#[derive(Clone, Debug)]
pub struct FacadeChildCrateRow {
    pub kind: FacadeCrateKind,
    pub crate_name: String,
    pub manifest_path: String,
    pub readme_present: bool,
    pub lib_present: bool,
    pub prelude_present: bool,
    pub documentation_status: FacadeStatus,
    pub documentation_notes: String,
    /// The status of the crate's manifest report, or `unknown`.
    pub manifest_status: &'static str,
    pub manifest_issue_count: usize,
}

/// The first manifest report of `ms` at `path`.
pub open spec fn report_at(ms: Seq<ManifestFileReport>, path: Seq<char>) -> Option<ManifestFileReport>
    decreases ms.len(),
{
    if ms.len() == 0 {
        None
    } else if ms[0].path@ == path {
        Some(ms[0])
    } else {
        report_at(ms.drop_first(), path)
    }
}

fn find_report(ms: &Vec<ManifestFileReport>, path: &str) -> (r: Option<usize>)
    ensures
        match r {
            Some(i) => i < ms@.len() && report_at(ms@, path@) == Some(ms@[i as int]),
            None => report_at(ms@, path@) is None,
        },
{
    let mut i: usize = 0;
    assert(ms@.skip(0) =~= ms@);
    while i < ms.len()
        invariant
            i <= ms.len(),
            report_at(ms@, path@) == report_at(ms@.skip(i as int), path@),
        decreases ms.len() - i,
    {
        assert(ms@.skip(i as int)[0] == ms@[i as int]);
        assert(ms@.skip(i as int).drop_first() =~= ms@.skip(i + 1));
        if str_eq(ms[i].path.as_str(), path) {
            return Some(i);
        }
        i = i + 1;
    }
    assert(ms@.skip(i as int) =~= Seq::<ManifestFileReport>::empty());
    None
}

/// The diagnostics of one facade repository.
#[derive(Debug)]
pub struct FacadeDiagnostics {
    pub facade: FacadeInfo,
    pub manifest: FacadeManifestReport,
    pub repository: RepositorySurfaceReport,
    pub github_workflows: GitHubWorkflowReport,
    pub gitlab: GitLabReport,
    pub release: ReleaseSurfaceReport,
    pub tooling: ToolingSurfaceReport,
    pub non_standard_paths: NonStandardPathReport,
    /// The crates under `crates/`, in path order.
    pub crates: Vec<FacadeCrateInfo>,
    pub issues: Vec<FacadeIssue>,
}

impl FacadeDiagnostics {
    /// The diagnostics of a facade from the reports of its parts: every
    /// issue is collected, in order.
    pub fn inspect(
        facade: FacadeInfo,
        manifest: FacadeManifestReport,
        repository: RepositorySurfaceReport,
        github_workflows: GitHubWorkflowReport,
        gitlab: GitLabReport,
        release: ReleaseSurfaceReport,
        tooling: ToolingSurfaceReport,
        non_standard_paths: NonStandardPathReport,
        crates: Vec<FacadeCrateInfo>,
    ) -> (d: FacadeDiagnostics)
        ensures
            facade_issue_views(d.issues@) == diagnostics_issues(facade, manifest, repository, github_workflows, release, tooling,
                non_standard_paths, crates@),
            d.facade == facade,
            d.manifest == manifest,
            d.repository == repository,
            d.github_workflows == github_workflows,
            d.gitlab == gitlab,
            d.release == release,
            d.tooling == tooling,
            d.non_standard_paths == non_standard_paths,
            d.crates@ == crates@,
    {
        let mut issues: Vec<FacadeIssue> = Vec::new();
        let root = facade.root.as_str();
        let ghost mut acc: Seq<FacadeIssueView> = Seq::empty();
        collect_facade_shape_issues(&facade, &mut issues);
        proof {
            acc = acc + shape_issues(facade);
            assert(facade_issue_views(issues@) =~= acc);
        }
        let missing_files = repository.missing_required_files();
        push_missing_paths(&mut issues, root, &missing_files, FacadeIssueCode::MissingRequiredFile, "file",
            FacadeFixKind::RestoreStandardFile);
        let missing_dirs = repository.missing_required_directories();
        push_missing_paths(&mut issues, root, &missing_dirs, FacadeIssueCode::MissingRequiredDirectory, "directory",
            FacadeFixKind::RestoreStandardDirectory);
        proof {
            acc = acc + surface_issues(facade.root@, repository);
            assert(facade_issue_views(issues@) =~= acc);
        }
        collect_manifest_issues(&manifest.manifests, &mut issues);
        proof {
            acc = acc + manifest_issues(manifest.manifests@);
            assert(facade_issue_views(issues@) =~= acc);
        }
        collect_crate_documentation_issues(&crates, &mut issues);
        proof {
            acc = acc + doc_issues(crates@);
            assert(facade_issue_views(issues@) =~= acc);
        }
        let tooling_missing = absent(&tooling.surface);
        push_absent_paths(&mut issues, root, &tooling_missing, FacadeIssueCode::MissingToolingSurface,
            "Restore missing tooling surface `", "`.", FacadeFixKind::RestoreStandardFile);
        proof {
            acc = acc + absent_issues(facade.root@, absent_paths(tooling.surface@), FacadeIssueCode::MissingToolingSurface,
                "Restore missing tooling surface `"@, "`."@, FacadeFixKind::RestoreStandardFile);
            assert(facade_issue_views(issues@) =~= acc);
        }
        let github_missing = github_workflows.missing_required_paths();
        push_absent_paths(&mut issues, root, &github_missing, FacadeIssueCode::MissingGithubCiCdSurface,
            "Restore missing required GitHub CI/CD file `", "`.", FacadeFixKind::RestoreGithubWorkflow);
        proof {
            acc = acc + absent_issues(facade.root@, absent_paths(github_workflows.required_surface@), FacadeIssueCode::MissingGithubCiCdSurface,
                "Restore missing required GitHub CI/CD file `"@, "`."@, FacadeFixKind::RestoreGithubWorkflow);
            assert(facade_issue_views(issues@) =~= acc);
        }
        let release_missing = absent(&release.surface);
        push_absent_paths(&mut issues, root, &release_missing, FacadeIssueCode::MissingReleaseSurface,
            "Restore missing release surface file `", "`.", FacadeFixKind::RestoreStandardFile);
        proof {
            acc = acc + absent_issues(facade.root@, absent_paths(release.surface@), FacadeIssueCode::MissingReleaseSurface,
                "Restore missing release surface file `"@, "`."@, FacadeFixKind::RestoreStandardFile);
            assert(facade_issue_views(issues@) =~= acc);
        }
        let release_ci_missing = absent(&release.ci_surface);
        push_absent_paths(&mut issues, root, &release_ci_missing, FacadeIssueCode::MissingReleaseCiSurface,
            "Restore missing release CI/CD surface file `", "`.", FacadeFixKind::RestoreGithubWorkflow);
        proof {
            acc = acc + absent_issues(facade.root@, absent_paths(release.ci_surface@), FacadeIssueCode::MissingReleaseCiSurface,
                "Restore missing release CI/CD surface file `"@, "`."@, FacadeFixKind::RestoreGithubWorkflow);
            assert(facade_issue_views(issues@) =~= acc);
        }
        collect_non_standard_path_issues(root, &non_standard_paths, &mut issues);
        proof {
            acc = acc + non_standard_issues(facade.root@, non_standard_paths);
            assert(facade_issue_views(issues@) =~= acc);
            assert(acc =~= diagnostics_issues(facade, manifest, repository, github_workflows, release, tooling,
                non_standard_paths, crates@));
        }
        FacadeDiagnostics {
            facade,
            manifest,
            repository,
            github_workflows,
            gitlab,
            release,
            tooling,
            non_standard_paths,
            crates,
            issues,
        }
    }

    fn count_severity(&self, sev: FacadeIssueSeverity) -> (n: usize)
        ensures
            n == count_facade_severity(facade_issue_views(self.issues@), sev),
    {
        let ghost all = facade_issue_views(self.issues@);
        let mut n: usize = 0;
        let mut i: usize = 0;
        while i < self.issues.len()
            invariant
                i <= self.issues.len(),
                all == facade_issue_views(self.issues@),
                n == count_facade_severity(all.take(i as int), sev),
            decreases self.issues.len() - i,
        {
            proof {
                assert(all.take(i + 1).drop_last() =~= all.take(i as int));
                lemma_count_facade_bound(all.take(i as int), sev);
            }
            if self.issues[i].severity == sev {
                n = n + 1;
            }
            i = i + 1;
        }
        assert(all.take(i as int) =~= all);
        n
    }

    /// The number of issues.
    pub fn issue_count(&self) -> (n: usize)
        ensures
            n == self.issues@.len(),
    {
        self.issues.len()
    }

    /// The number of errors.
    pub fn error_count(&self) -> (n: usize)
        ensures
            n == count_facade_severity(facade_issue_views(self.issues@), FacadeIssueSeverity::Error),
    {
        self.count_severity(FacadeIssueSeverity::Error)
    }

    /// The number of warnings.
    pub fn warning_count(&self) -> (n: usize)
        ensures
            n == count_facade_severity(facade_issue_views(self.issues@), FacadeIssueSeverity::Warning),
    {
        self.count_severity(FacadeIssueSeverity::Warning)
    }

    /// The number of issues with a repair.
    pub fn fixable_count(&self) -> (n: usize)
        ensures
            n == count_fixable(facade_issue_views(self.issues@)),
    {
        let ghost all = facade_issue_views(self.issues@);
        let mut n: usize = 0;
        let mut i: usize = 0;
        while i < self.issues.len()
            invariant
                i <= self.issues.len(),
                all == facade_issue_views(self.issues@),
                n == count_fixable(all.take(i as int)),
            decreases self.issues.len() - i,
        {
            proof {
                assert(all.take(i + 1).drop_last() =~= all.take(i as int));
                lemma_count_facade_bound(all.take(i as int), FacadeIssueSeverity::Error);
            }
            if self.issues[i].fix.is_some() {
                n = n + 1;
            }
            i = i + 1;
        }
        assert(all.take(i as int) =~= all);
        n
    }

    /// The status of the facade: the worse of its shape status and the
    /// status its error and warning counts give.
    pub fn facade_status(&self) -> (s: FacadeStatus)
        ensures
            s == worse(
                shape_status(self.facade.found.manifest_is_file, self.facade.found.git_dir_is_dir,
                    self.facade.found.crates_dir_is_dir, self.facade.crate_manifest_paths@.len()),
                status_from_counts(
                    count_facade_severity(facade_issue_views(self.issues@), FacadeIssueSeverity::Error),
                    count_facade_severity(facade_issue_views(self.issues@), FacadeIssueSeverity::Warning),
                ),
            ),
    {
        let shape = self.facade.facade_status();
        let counts = FacadeStatus::from_error_warning_counts(self.error_count(), self.warning_count());
        shape.combine(counts)
    }

    /// The label of the facade's status.
    pub fn status(&self) -> (s: &'static str)
        ensures
            s@ == crate::facade_issue::status_label(worse(
                shape_status(self.facade.found.manifest_is_file, self.facade.found.git_dir_is_dir,
                    self.facade.found.crates_dir_is_dir, self.facade.crate_manifest_paths@.len()),
                status_from_counts(
                    count_facade_severity(facade_issue_views(self.issues@), FacadeIssueSeverity::Error),
                    count_facade_severity(facade_issue_views(self.issues@), FacadeIssueSeverity::Warning),
                ),
            )),
    {
        self.facade_status().as_str()
    }

    /// The issues that have a repair, in order.
    pub fn fixable_issues(&self) -> (r: Vec<usize>)
        ensures
            forall|k: int| 0 <= k < r@.len() ==> r@[k] < self.issues@.len() && (#[trigger] self.issues@[r@[k] as int]).fix is Some,
            forall|k: int, m: int| 0 <= k < m < r@.len() ==> r@[k] < r@[m],
            forall|j: int| 0 <= j < self.issues@.len() && (#[trigger] self.issues@[j]).fix is Some ==> r@.contains(j as usize),
    {
        let mut r: Vec<usize> = Vec::new();
        let mut i: usize = 0;
        while i < self.issues.len()
            invariant
                i <= self.issues.len(),
                forall|k: int| 0 <= k < r@.len() ==> #[trigger] r@[k] < i && self.issues@[r@[k] as int].fix is Some,
                forall|k: int, m: int| 0 <= k < m < r@.len() ==> r@[k] < r@[m],
                forall|j: int| 0 <= j < i && (#[trigger] self.issues@[j]).fix is Some ==> r@.contains(j as usize),
            decreases self.issues.len() - i,
        {
            if self.issues[i].fix.is_some() {
                let ghost before = r@;
                r.push(i);
                proof {
                    assert forall|k: int, m: int| 0 <= k < m < r@.len() implies r@[k] < r@[m] by {
                        assert(r@[k] == before[k]);
                        if m < before.len() {
                            assert(r@[m] == before[m]);
                        } else {
                            assert(before[k] < i);
                        }
                    }
                    assert forall|j: int| 0 <= j < i + 1 && (#[trigger] self.issues@[j]).fix is Some implies r@.contains(j as usize) by {
                        if j < i {
                            let w = choose|w: int| 0 <= w < before.len() && before[w] == j as usize;
                            assert(r@[w] == j as usize);
                        } else {
                            assert(r@[before.len() as int] == i);
                        }
                    }
                }
            }
            i = i + 1;
        }
        r
    }

    /// One row per crate: its documentation and the status and issue count
    /// of its manifest report (found by the crate manifest's path relative
    /// to the facade root; `unknown` and 0 where there is none).
    pub fn child_crate_rows(&self) -> (rows: Vec<FacadeChildCrateRow>)
        ensures
            rows@.len() == self.crates@.len(),
            forall|i: int| 0 <= i < rows@.len() ==> {
                let c = self.crates@[i];
                let rel = crate::facade_model::relative_to(self.facade.root@, c.manifest_path@);
                &&& (#[trigger] rows@[i]).kind == c.kind
                &&& rows@[i].crate_name@ == c.name@
                &&& rows@[i].manifest_path@ == rel
                &&& rows@[i].readme_present == c.found.readme_is_file
                &&& rows@[i].lib_present == c.found.lib_is_file
                &&& rows@[i].prelude_present == c.found.prelude_is_file
                &&& rows@[i].documentation_notes@ == crate::facade_model::doc_notes_text(c.kind, c.found)
                &&& rows@[i].documentation_status == if docs_complete(c.kind, c.found) {
                    FacadeStatus::Healthy
                } else {
                    FacadeStatus::Warning
                }
                &&& match report_at(self.manifest.manifests@, rel) {
                    Some(m) => rows@[i].manifest_status@ == count_status(
                        crate::manifest_model::count_severity(issue_views(m.issues@), ManifestIssueSeverity::Error),
                        crate::manifest_model::count_severity(issue_views(m.issues@), ManifestIssueSeverity::Warning),
                    ) && rows@[i].manifest_issue_count == m.issues@.len(),
                    None => rows@[i].manifest_status@ == "unknown"@ && rows@[i].manifest_issue_count == 0,
                }
            },
    {
        let mut rows: Vec<FacadeChildCrateRow> = Vec::new();
        let mut i: usize = 0;
        while i < self.crates.len()
            invariant
                i <= self.crates.len(),
                rows@.len() == i,
                forall|k: int| 0 <= k < i ==> {
                    let c = self.crates@[k];
                    let rel = crate::facade_model::relative_to(self.facade.root@, c.manifest_path@);
                    &&& (#[trigger] rows@[k]).kind == c.kind
                    &&& rows@[k].crate_name@ == c.name@
                    &&& rows@[k].manifest_path@ == rel
                    &&& rows@[k].readme_present == c.found.readme_is_file
                    &&& rows@[k].lib_present == c.found.lib_is_file
                    &&& rows@[k].prelude_present == c.found.prelude_is_file
                    &&& rows@[k].documentation_notes@ == crate::facade_model::doc_notes_text(c.kind, c.found)
                    &&& rows@[k].documentation_status == if docs_complete(c.kind, c.found) {
                        FacadeStatus::Healthy
                    } else {
                        FacadeStatus::Warning
                    }
                    &&& match report_at(self.manifest.manifests@, rel) {
                        Some(m) => rows@[k].manifest_status@ == count_status(
                            crate::manifest_model::count_severity(issue_views(m.issues@), ManifestIssueSeverity::Error),
                            crate::manifest_model::count_severity(issue_views(m.issues@), ManifestIssueSeverity::Warning),
                        ) && rows@[k].manifest_issue_count == m.issues@.len(),
                        None => rows@[k].manifest_status@ == "unknown"@ && rows@[k].manifest_issue_count == 0,
                    }
                },
            decreases self.crates.len() - i,
        {
            let c = &self.crates[i];
            let rel = self.facade.relative_path(c.manifest_path.as_str());
            let (status, count): (&'static str, usize) = match find_report(&self.manifest.manifests, rel.as_str()) {
                Some(k) => (self.manifest.manifests[k].status(), self.manifest.manifests[k].issue_count()),
                None => ("unknown", 0),
            };
            let row = FacadeChildCrateRow {
                kind: c.kind,
                crate_name: c.name.clone(),
                manifest_path: rel,
                readme_present: c.readme_present(),
                lib_present: c.lib_present(),
                prelude_present: c.prelude_present(),
                documentation_status: c.documentation_status(),
                documentation_notes: c.documentation_notes(),
                manifest_status: status,
                manifest_issue_count: count,
            };
            rows.push(row);
            i = i + 1;
        }
        rows
    }
}


/// A facade without a `.git` directory is reported: its diagnostics hold a
/// `missing-git-repository` warning at `<root>/.git`.
pub proof fn lemma_missing_git_reported(
    f: FacadeInfo,
    manifest: FacadeManifestReport,
    repository: RepositorySurfaceReport,
    github: GitHubWorkflowReport,
    release: ReleaseSurfaceReport,
    tooling: ToolingSurfaceReport,
    non_standard: NonStandardPathReport,
    crates: Seq<FacadeCrateInfo>,
    issues: Seq<FacadeIssueView>,
)
    requires
        issues == diagnostics_issues(f, manifest, repository, github, release, tooling, non_standard, crates),
        !f.found.git_dir_is_dir,
    ensures
        exists|i: int| {
            &&& 0 <= i < issues.len()
            &&& #[trigger] issues[i].code == FacadeIssueCode::MissingGitRepository
            &&& issues[i].severity == FacadeIssueSeverity::Warning
            &&& issues[i].path == Some(join_path(f.root@, ".git"@))
        },
{
    let s = shape_issues(f);
    assert(s[0].code == FacadeIssueCode::MissingGitRepository);
    assert(issues[0] == s[0]);
}
} // verus!
