use rustuse_cli::codes::FacadeIssueCode;
use rustuse_cli::fleet_health::{build_fleet_report, offender_order, summarise_buckets};
use rustuse_cli::fleet_model::{
    analyze_fleet_manifests, display_name, display_version, summarize_root, FleetDiagnostics, FleetFacadeEntry,
    FleetFacadeSources, FleetRepoEntry, RootEntry, RootSummary,
};
use rustuse_cli::fleet_report::{default_fleet_report_path, fleet_response_lines};
use rustuse_cli::manifest_model::{FacadeManifestReport, ManifestFileReport, ManifestIssue, ManifestIssueSeverity, ManifestKind};

fn dir(name: &str, has_git: bool) -> RootEntry {
    RootEntry { path: format!("/work/{name}"), name: Some(name.to_owned()), is_dir: true, has_git }
}

fn report(name: &str, errors: usize, warnings: usize) -> FacadeManifestReport {
    let mut issues = Vec::new();
    for _ in 0..errors {
        issues.push(ManifestIssue::error(FacadeIssueCode::InvalidCategorySlug, "bad".to_owned()));
    }
    for _ in 0..warnings {
        issues.push(ManifestIssue::warning(FacadeIssueCode::MissingWorkspaceResolver, "w".to_owned()));
    }
    FacadeManifestReport {
        facade_name: name.to_owned(),
        manifests: vec![ManifestFileReport {
            path: "Cargo.toml".to_owned(),
            kind: ManifestKind::WorkspaceRoot,
            package_name: None,
            issues,
        }],
    }
}

fn fleet(manifests: Vec<FacadeManifestReport>, has_docs: bool) -> FleetDiagnostics {
    FleetDiagnostics {
        fleet: "/work".to_owned(),
        name: "rustuse".to_owned(),
        root_summary: RootSummary {
            has_cli: true,
            has_docs,
            use_dir_count: 2,
            facade_git_count: 2,
            missing_git: Vec::new(),
        },
        repos: vec![FleetRepoEntry { name: "cli".to_owned(), present: true, has_git: true }],
        facades: vec![
            FleetFacadeEntry {
                name: "use-a".to_owned(),
                version: Some("0.1.0".to_owned()),
                has_git: true,
                has_cargo_toml: true,
                has_crates_dir: true,
                child_crate_count: 2,
            },
            FleetFacadeEntry {
                name: "use-b".to_owned(),
                version: None,
                has_git: true,
                has_cargo_toml: false,
                has_crates_dir: true,
                child_crate_count: 1,
            },
        ],
        manifests,
    }
}

#[test]
fn root_summary_counts_use_directories() {
    let entries = vec![
        dir("use-b", false),
        dir("cli", true),
        dir("use-a", true),
        dir("use-c", false),
        RootEntry { path: "/work/use-file".to_owned(), name: Some("use-file".to_owned()), is_dir: false, has_git: false },
        RootEntry { path: "/work/odd".to_owned(), name: None, is_dir: true, has_git: false },
    ];
    let s = summarize_root(true, false, &entries);
    assert!(s.has_cli && !s.has_docs);
    assert_eq!(s.use_dir_count, 3);
    assert_eq!(s.facade_git_count, 1);
    assert_eq!(s.missing_git, vec!["/work/use-b", "/work/use-c"]);
}

#[test]
fn display_names_are_last_components() {
    assert_eq!(display_name("/work/use-a"), "use-a");
    assert_eq!(display_name("/work/use-a/"), "use-a");
    assert_eq!(display_name("/"), "<unknown>");
    assert_eq!(display_name("/work/.."), "<unknown>");
    assert_eq!(display_version(&Some("1.2.3".to_owned())), "1.2.3");
    assert_eq!(display_version(&None), "-");
}

#[test]
fn fleet_status_follows_errors_then_warnings() {
    assert_eq!(fleet(vec![report("use-a", 0, 0)], true).status(), "ok");
    assert_eq!(fleet(vec![report("use-a", 0, 0)], false).status(), "warning");
    assert_eq!(fleet(vec![report("use-a", 0, 3)], true).status(), "warning");
    assert_eq!(fleet(vec![report("use-a", 1, 3)], true).status(), "error");
}

#[test]
fn fleet_counts_add_up_over_facades() {
    let d = fleet(vec![report("use-a", 1, 2), report("use-b", 0, 4)], true);
    assert_eq!(d.child_crate_count(), 3);
    assert_eq!(d.manifest_count(), 2);
    assert_eq!(d.manifest_issue_count(), 7);
    assert_eq!(d.manifest_error_count(), 1);
    assert_eq!(d.manifest_warning_count(), 6);
    assert_eq!(d.invalid_category_count(), 1);
    assert_eq!(d.missing_fleet_repo_count(), 0);
}

#[test]
fn offenders_rank_by_issues_then_errors_then_name() {
    let reports = vec![report("use-c", 0, 2), report("use-a", 1, 1), report("use-z", 0, 0), report("use-b", 0, 2)];
    assert_eq!(offender_order(&reports), vec![1, 3, 0]);
}

#[test]
fn shape_summary_ranks_buckets_by_count() {
    let keys = vec![
        (ManifestIssueSeverity::Error, FacadeIssueCode::InvalidCategorySlug),
        (ManifestIssueSeverity::Warning, FacadeIssueCode::MissingWorkspaceResolver),
        (ManifestIssueSeverity::Warning, FacadeIssueCode::MissingWorkspace),
    ];
    let rows = summarise_buckets(&keys);
    let got: Vec<(&str, usize)> = rows.iter().map(|r| (r.bucket.as_str(), r.count)).collect();
    assert_eq!(got, vec![("Workspace shape", 2), ("Category metadata", 1)]);
}

#[test]
fn fleet_report_lists_sections_and_offenders() {
    let d = fleet(vec![report("use-a", 1, 1), report("use-b", 0, 0)], true);
    let md = build_fleet_report(&d);
    assert!(md.starts_with("# RustUse Fleet Report\n\n## Summary\n\n- Fleet: `/work`\n- Fleet name: `rustuse`\n"));
    assert!(md.contains("- Standard fleet name: yes\n"));
    assert!(md.contains("- Cargo manifest issues: `2` (`1` error(s), `1` warning(s))\n"));
    assert!(md.contains("| `cli` | yes | yes |\n"));
    assert!(md.contains("### Manifest Shape Summary\n\n| Shape Area | Issues |\n|---|---:|\n| Workspace shape | 1 |\n| Category metadata | 1 |\n\n"));
    assert!(md.contains("| error | `use-a` | 1 | 1 | 1 | 1 |\n"));
    assert!(md.contains("Showing the top 1 facade(s) by manifest issue count.\n"));
    assert!(md.contains("| 1 | error | `use-a` | 1 | 2 | 1 | 1 | 1 |\n"));
    assert!(md.contains("| ok | `use-a` | `0.1.0` | yes | yes | yes | 2 |\n"));
    assert!(md.contains("| error | `use-b` | `-` | yes | no | yes | 1 |\n"));
    assert!(md.ends_with("other invalid Cargo metadata.\n"));
}

#[test]
fn fleet_report_is_deterministic() {
    let d = fleet(vec![report("use-c", 0, 2), report("use-a", 1, 1), report("use-b", 0, 2)], true);
    let first = build_fleet_report(&d);
    let second = build_fleet_report(&d);
    assert_eq!(first, second);
    let a = first.find("| 1 | error | `use-a` |").unwrap();
    let b = first.find("| 2 | warning | `use-b` |").unwrap();
    let c = first.find("| 3 | warning | `use-c` |").unwrap();
    assert!(a < b && b < c);
}

#[test]
fn fleet_report_names_facades_missing_git() {
    let mut d = fleet(vec![report("use-a", 0, 0)], true);
    d.root_summary.missing_git = vec!["/work/use-x".to_owned(), "/work/use-y".to_owned()];
    let md = build_fleet_report(&d);
    assert!(md.contains("- Facades missing `.git`: `use-x`, `use-y`\n\n"));
}

#[test]
fn fleet_response_and_path() {
    let d = fleet(vec![report("use-a", 0, 0)], true);
    assert_eq!(default_fleet_report_path("/work"), "/work/rustuse-fleet-report.md");
    assert_eq!(
        fleet_response_lines(&d, "/work/rustuse-fleet-report.md"),
        vec![
            "RustUse fleet report - fleet: /work",
            "status: ok",
            "facades: 2",
            "child crates: 3",
            "manifests: 1",
            "errors: 0",
            "warnings: 0",
            "wrote: /work/rustuse-fleet-report.md",
        ]
    );
}

#[test]
fn fleet_manifests_are_analysed_per_facade() {
    let reports = analyze_fleet_manifests(vec![
        FleetFacadeSources { name: "use-a".to_owned(), root: None, children: Vec::new() },
        FleetFacadeSources { name: "use-b".to_owned(), root: None, children: Vec::new() },
    ]);
    assert_eq!(reports.len(), 2);
    assert_eq!(reports[0].facade_name, "use-a");
    assert_eq!(reports[1].facade_name, "use-b");
}
