use rustuse_cli::codes::FacadeIssueCode;
use rustuse_cli::facade_diagnostics::FacadeDiagnostics;
use rustuse_cli::facade_issue::{FacadeFixKind, FacadeIssue, FacadeIssueSeverity};
use rustuse_cli::facade_model::{CratePresence, FacadeCrateInfo, FacadeInfo, FacadePresence};
use rustuse_cli::facade_surface::{
    facade_non_standard_paths, facade_surface_profile, gitlab_report, inspect_non_standard_paths,
    inspect_repository_surface, GitHubWorkflowReport, PresenceCheck, ReleaseSurfaceReport, SurfacePresence,
    ToolingSurfaceReport,
};
use rustuse_cli::manifest_model::{FacadeManifestReport, ManifestFileReport, ManifestIssue, ManifestKind};
use rustuse_cli::markdown::{tally, write_presence_table, yes_no};
use rustuse_cli::report_action::{priority_order, write_action_plan};
use rustuse_cli::report_build::{build_report, default_report_path, report_response_lines, scan_detail, scan_lines};
use rustuse_cli::report_manifest::{summarise, write_manifest_health};

fn present(paths: &[&str], present: bool) -> Vec<PresenceCheck> {
    paths.iter().map(|p| PresenceCheck::new((*p).to_owned(), present)).collect()
}

fn healthy_facade(crate_paths: Vec<String>) -> FacadeInfo {
    FacadeInfo::new(
        "/work/use-demo".to_owned(),
        "use-demo".to_owned(),
        crate_paths,
        FacadePresence { git_dir_is_dir: true, manifest_is_file: true, crates_dir_is_dir: true },
    )
}

fn diagnostics(facade: FacadeInfo, manifests: Vec<ManifestFileReport>, all_present: bool) -> FacadeDiagnostics {
    let profile = facade_surface_profile();
    let found = SurfacePresence {
        required_files: vec![all_present; profile.required_files.len()],
        optional_files: vec![all_present; profile.optional_files.len()],
        required_directories: vec![all_present; profile.required_directories.len()],
        optional_directories: vec![all_present; profile.optional_directories.len()],
    };
    let repository = inspect_repository_surface(&profile, &found);
    let rules = facade_non_standard_paths();
    let non_standard = inspect_non_standard_paths(&rules, &vec![false; rules.len()]);
    let github = GitHubWorkflowReport {
        required_surface: present(&[".github/workflows/ci.yml"], all_present),
        required_workflows: present(&["ci.yml"], all_present),
    };
    let release = ReleaseSurfaceReport {
        surface: present(&["release-plz.toml"], all_present),
        ci_surface: present(&[".github/workflows/release.yml"], all_present),
    };
    let tooling = ToolingSurfaceReport { surface: present(&["deny.toml"], all_present) };
    let crates: Vec<FacadeCrateInfo> = Vec::new();
    FacadeDiagnostics::inspect(
        facade,
        FacadeManifestReport { facade_name: "use-demo".to_owned(), manifests },
        repository,
        github,
        gitlab_report(all_present, all_present),
        release,
        tooling,
        non_standard,
        crates,
    )
}

#[test]
fn yes_no_labels() {
    assert_eq!(yes_no(true), "yes");
    assert_eq!(yes_no(false), "no");
}

#[test]
fn presence_table_lists_each_path() {
    let mut out = String::from("> ");
    write_presence_table(&mut out, &present(&["a", "b"], true));
    assert_eq!(out, "> | Path | Present |\n|---|---:|\n| `a` | yes |\n| `b` | yes |\n\n");
}

#[test]
fn tally_counts_labels_in_label_order() {
    let labels = vec!["warning".to_owned(), "error".to_owned(), "warning".to_owned()];
    let rows = tally(&labels);
    let got: Vec<(String, usize)> = rows.iter().map(|r| (r.label.clone(), r.count)).collect();
    assert_eq!(got, vec![("error".to_owned(), 1), ("warning".to_owned(), 2)]);
}

#[test]
fn tally_of_nothing_is_empty() {
    assert!(tally(&Vec::new()).is_empty());
}

#[test]
fn default_report_path_is_in_the_root() {
    assert_eq!(default_report_path("/work/use-demo"), "/work/use-demo/rustuse-report.md");
    assert_eq!(default_report_path("/work/use-demo/"), "/work/use-demo/rustuse-report.md");
}

#[test]
fn scan_lines_describe_the_facade() {
    let facade = healthy_facade(vec!["/work/use-demo/crates/use-a/Cargo.toml".to_owned()]);
    assert_eq!(
        scan_lines(&facade),
        vec![
            "RustUse facade scan - use-demo",
            "- root: /work/use-demo",
            "- git: yes",
            "- Cargo.toml: yes",
            "- crates/: yes",
            "- child crates: 1",
            "- status: ok",
        ]
    );
    assert_eq!(
        scan_detail(&facade),
        "facade=use-demo, git=true, manifest=true, crates_dir=true, child_crates=1"
    );
}

#[test]
fn scan_of_a_facade_without_manifest_is_an_error() {
    let facade = FacadeInfo::new(
        "/work/use-x".to_owned(),
        "use-x".to_owned(),
        Vec::new(),
        FacadePresence { git_dir_is_dir: false, manifest_is_file: false, crates_dir_is_dir: false },
    );
    let lines = scan_lines(&facade);
    assert_eq!(lines[6], "- status: error");
}

#[test]
fn priority_order_puts_errors_first() {
    let issues = vec![
        FacadeIssue::warning(FacadeIssueCode::MissingRequiredFile, Some("README.md".to_owned()), "b".to_owned()),
        FacadeIssue::error(FacadeIssueCode::MissingRootManifest, None, "a".to_owned()),
        FacadeIssue::warning(FacadeIssueCode::MissingGitRepository, None, "c".to_owned()),
    ];
    let order = priority_order(&issues);
    assert_eq!(order[0], 1);
    assert_eq!(order.len(), 3);
    let mut sorted = order.clone();
    sorted.sort();
    assert_eq!(sorted, vec![0, 1, 2]);
}

#[test]
fn action_plan_without_issues_needs_no_action() {
    let d = diagnostics(healthy_facade(vec!["/work/use-demo/crates/use-a/Cargo.toml".to_owned()]), Vec::new(), true);
    assert_eq!(d.issues.len(), 0);
    let mut out = String::new();
    write_action_plan(&mut out, &d);
    assert_eq!(out, "## Action Plan\n\n- No required action.\n\n");
}

#[test]
fn action_plan_counts_and_groups_issues() {
    let d = diagnostics(healthy_facade(Vec::new()), Vec::new(), false);
    assert!(d.error_count() == 0);
    assert!(d.warning_count() > 0);
    let mut out = String::new();
    write_action_plan(&mut out, &d);
    let n = d.issue_count();
    let fixable = d.fixable_count();
    assert!(out.starts_with("## Action Plan\n\n- Address "));
    assert!(out.contains(&format!("- Address {} issue(s): 0 error(s), {} warning(s).\n", n, n)));
    assert!(out.contains(&format!("- Fixable by RustUse: `{}` issue(s).\n", fixable)));
    assert!(out.contains(&format!("- Manual review required: `{}` issue(s).\n", n - fixable)));
    assert!(!out.contains("- Fix errors before addressing warnings."));
    assert!(out.contains("### Issue Groups\n\n| Group | Issues |\n|---|---:|\n"));
    assert!(out.contains("### Priority Issues\n\n| Severity | Code | Path | Message |\n"));
}

#[test]
fn manifest_health_summarises_issues() {
    let manifests = vec![ManifestFileReport {
        path: "Cargo.toml".to_owned(),
        kind: ManifestKind::WorkspaceRoot,
        package_name: Some("use-demo".to_owned()),
        issues: vec![
            ManifestIssue::warning(FacadeIssueCode::MissingWorkspaceResolver, "no resolver".to_owned()),
            ManifestIssue::error(FacadeIssueCode::InvalidCategorySlug, "bad slug".to_owned()),
            ManifestIssue::warning(FacadeIssueCode::MissingWorkspaceResolver, "no resolver again".to_owned()),
        ],
    }];
    let d = diagnostics(healthy_facade(vec!["/work/use-demo/crates/use-a/Cargo.toml".to_owned()]), manifests, true);
    let mut out = String::new();
    write_manifest_health(&mut out, &d);
    let expected_head = "## Cargo Manifest Health\n\n- Status: **error**\n- Manifests inspected: `1`\n- Issues: `3`\n- Errors: `1`\n- Warnings: `2`\n- Invalid crates.io category slugs: `1`\n\n";
    assert!(out.starts_with(expected_head));
    assert!(out.contains(
        "### Manifest Issue Summary\n\n| Severity | Code | Count |\n|---|---|---:|\n| `warning` | `missing-workspace-resolver` | 2 |\n| `error` | `invalid-category-slug` | 1 |\n\n"
    ));
    assert!(out.contains("| `workspace-root` | `use-demo` | error | 3 | `Cargo.toml` |\n"));
    assert!(out.contains("#### `Cargo.toml`\n\n- Kind: `workspace-root`\n- Status: **error**\n- Package: `use-demo`\n- Issues:\n"));
    assert!(out.contains("  - **error** `invalid-category-slug`: bad slug\n"));
}

#[test]
fn summary_rows_break_count_ties_by_severity_then_code() {
    let keys = vec![
        (rustuse_cli::manifest_model::ManifestIssueSeverity::Warning, FacadeIssueCode::MissingWorkspace),
        (rustuse_cli::manifest_model::ManifestIssueSeverity::Error, FacadeIssueCode::MissingWorkspaceMembers),
        (rustuse_cli::manifest_model::ManifestIssueSeverity::Error, FacadeIssueCode::MissingWorkspace),
    ];
    let rows = summarise(&keys);
    let got: Vec<(&str, &str, usize)> = rows.iter().map(|r| (r.severity.as_str(), r.code.as_str(), r.count)).collect();
    assert_eq!(
        got,
        vec![
            ("error", "missing-workspace", 1),
            ("error", "missing-workspace-members", 1),
            ("warning", "missing-workspace", 1),
        ]
    );
}

#[test]
fn facade_report_has_every_section_in_order() {
    let d = diagnostics(healthy_facade(vec!["/work/use-demo/crates/use-a/Cargo.toml".to_owned()]), Vec::new(), true);
    let report = build_report(&d);
    let sections = [
        "# RustUse Facade Report",
        "## Contents",
        "## Action Plan",
        "## Expected Facade Structure",
        "## Facade Shape",
        "## Repository Surface",
        "## Cargo Manifest Health",
        "## Child Crates",
        "## Crate Documentation Consistency",
        "## Standard File Consistency",
        "## Non-standard Paths",
        "## Tooling Configuration",
        "## CI/CD Surface",
        "## Documentation Surface",
        "## Release Surface",
        "## Notes",
    ];
    let mut at = 0;
    for s in sections {
        let found = report[at..].find(s).unwrap_or_else(|| panic!("missing section {s}"));
        at += found + s.len();
    }
    assert!(report.contains("- Status: **ok**\n"));
    assert!(report.contains("- No non-standard paths detected.\n\n"));
    assert!(report.contains("- No child crate manifests found.\n\n"));
    assert!(report.ends_with("- Diagnostics are shared by report, status, plan, and fix so all dev commands use the same issue source.\n\n"));
}

#[test]
fn facade_report_is_deterministic() {
    let manifests = vec![ManifestFileReport {
        path: "Cargo.toml".to_owned(),
        kind: ManifestKind::WorkspaceRoot,
        package_name: Some("use-demo".to_owned()),
        issues: vec![
            ManifestIssue::warning(FacadeIssueCode::MissingWorkspaceResolver, "no resolver".to_owned()),
            ManifestIssue::error(FacadeIssueCode::InvalidCategorySlug, "bad slug".to_owned()),
        ],
    }];
    let d = diagnostics(healthy_facade(Vec::new()), manifests, false);
    assert!(d.issue_count() > 1);
    let first = build_report(&d);
    let second = build_report(&d);
    assert_eq!(first, second);
    assert!(first.contains("### Priority Issues\n\n"));
}

#[test]
fn report_response_announces_the_output() {
    let d = diagnostics(healthy_facade(vec!["/work/use-demo/crates/use-a/Cargo.toml".to_owned()]), Vec::new(), true);
    assert_eq!(
        report_response_lines(&d, "/work/use-demo/rustuse-report.md"),
        vec![
            "RustUse facade report - root: /work/use-demo",
            "status: ok",
            "errors: 0",
            "warnings: 0",
            "wrote: /work/use-demo/rustuse-report.md",
        ]
    );
}

#[test]
fn fixable_issues_are_the_ones_with_a_repair() {
    let d = diagnostics(healthy_facade(Vec::new()), Vec::new(), false);
    let idx = d.fixable_issues();
    assert_eq!(idx.len(), d.fixable_count());
    for i in idx {
        assert!(d.issues[i].fix.is_some());
    }
    let with_fix = FacadeIssue::new(FacadeIssueSeverity::Warning, FacadeIssueCode::MissingRequiredFile, None, "m".to_owned())
        .with_fix(FacadeFixKind::RestoreStandardFile);
    assert_eq!(with_fix.fix, Some(FacadeFixKind::RestoreStandardFile));
}

#[test]
fn child_crate_rows_follow_the_crates() {
    let facade = healthy_facade(vec!["/work/use-demo/crates/use-a/Cargo.toml".to_owned()]);
    let child = FacadeCrateInfo::from_crate_dir(
        &facade,
        "use-a",
        CratePresence { readme_is_file: false, lib_is_file: true, prelude_is_file: false },
    );
    assert_eq!(child.manifest_path, "/work/use-demo/crates/use-a/Cargo.toml");
    assert_eq!(child.documentation_notes(), "missing README.md");
}
