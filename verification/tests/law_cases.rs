use rustuse_cli::codes::FacadeIssueCode;
use rustuse_cli::facade_issue::FacadeIssue;
use rustuse_cli::facade_issue::FacadeStatus;
use rustuse_cli::facade_issue::FacadeStatus::{Error, Healthy, Warning};
use rustuse_cli::fix_model::{parse_fix_target, FacadeFixGroup, FacadeFixTarget};
use rustuse_cli::fix_plan::ManifestFixSelection;
use rustuse_cli::fleet_health::offender_order;
use rustuse_cli::github_issue::{GithubIssue, GithubIssueCode, GithubIssueSeverity};
use rustuse_cli::github_model::{GithubCheckReport, GithubTarget};
use rustuse_cli::manifest_model::{FacadeManifestReport, ManifestFileReport, ManifestIssue, ManifestKind};
use rustuse_cli::report_action::priority_order;
use rustuse_cli::catalog::search;
use rustuse_cli::codes::parse_code;
use rustuse_cli::fix_manifest::{parse_manifest, repair_facade_dependencies, repair_facade_features, repair_workspace_shape, CrateInfo};
use rustuse_cli::manifest_facade::validate_facade_dependency_and_feature_wiring;
use rustuse_cli::toml_tree::TomlTable;

#[test]
fn combining_statuses_keeps_the_worst() {
    for a in [Healthy, Warning, Error] {
        for b in [Healthy, Warning, Error] {
            assert_eq!(a.combine(b), b.combine(a));
            assert_eq!(a.combine(Healthy), a);
            assert_eq!(a.combine(Error), Error);
        }
    }
    assert_eq!(Warning.combine(Healthy), Warning);
}

#[test]
fn repeating_a_code_selects_nothing_more() {
    let once = ManifestFixSelection::from_codes(&vec!["facade-wiring".to_owned()]).unwrap();
    let twice = ManifestFixSelection::from_codes(&vec!["facade-wiring".to_owned(), "facade-wiring".to_owned()]).unwrap();
    assert_eq!(once, twice);
    let ab = ManifestFixSelection::from_codes(&vec!["workspace-shape".to_owned(), "package-metadata".to_owned()]).unwrap();
    let ba = ManifestFixSelection::from_codes(&vec!["package-metadata".to_owned(), "workspace-shape".to_owned()]).unwrap();
    assert_eq!(ab, ba);
}

#[test]
fn every_name_reads_back_as_what_it_names() {
    for g in [
        FacadeFixGroup::FacadeWiring,
        FacadeFixGroup::WorkspaceShape,
        FacadeFixGroup::WorkspaceDependencies,
        FacadeFixGroup::PackageMetadata,
    ] {
        assert_eq!(parse_fix_target(g.as_str()), Ok(FacadeFixTarget::Group(g)));
    }
    for c in rustuse_cli::codes::all_codes() {
        assert_eq!(parse_fix_target(c.as_str()), Ok(FacadeFixTarget::Issue(c)));
    }
}

#[test]
fn search_ignores_case() {
    let lower: Vec<String> = search("use-math").into_iter().map(|e| e.name).collect();
    let upper: Vec<String> = search("USE-Math").into_iter().map(|e| e.name).collect();
    assert_eq!(lower, upper);
    assert!(!lower.is_empty());
}

#[test]
fn priority_ties_keep_their_order() {
    let issues = vec![
        FacadeIssue::warning(FacadeIssueCode::MissingGitRepository, Some("b".to_owned()), "same".to_owned()),
        FacadeIssue::warning(FacadeIssueCode::MissingGitRepository, Some("a".to_owned()), "same".to_owned()),
        FacadeIssue::error(FacadeIssueCode::MissingRootManifest, None, "x".to_owned()),
    ];
    assert_eq!(priority_order(&issues), vec![2, 0, 1]);
}

fn gh_issue(sev: GithubIssueSeverity, path: &str, message: &str) -> GithubIssue {
    GithubIssue::new(sev, GithubIssueCode::MissingGithubWorkflow, path.to_owned(), message.to_owned())
}

#[test]
fn github_issues_sort_stably() {
    let mut report = GithubCheckReport {
        target: GithubTarget::from_facade_path("/w/use-a"),
        facade_path: "/w/use-a".to_owned(),
        checks: Vec::new(),
        issues: vec![
            gh_issue(GithubIssueSeverity::Warning, "b", "1"),
            gh_issue(GithubIssueSeverity::Error, "z", "2"),
            gh_issue(GithubIssueSeverity::Warning, "a", "3"),
            gh_issue(GithubIssueSeverity::Warning, "a", "4"),
        ],
    };
    report.sort_issues();
    let messages: Vec<&str> = report.issues.iter().map(|i| i.message.as_str()).collect();
    assert_eq!(messages, vec!["2", "3", "4", "1"]);
}

fn manifest_report(name: &str, warnings: usize) -> FacadeManifestReport {
    FacadeManifestReport {
        facade_name: name.to_owned(),
        manifests: vec![ManifestFileReport {
            path: "Cargo.toml".to_owned(),
            kind: ManifestKind::WorkspaceRoot,
            package_name: None,
            issues: (0..warnings)
                .map(|_| ManifestIssue::warning(FacadeIssueCode::MissingWorkspaceResolver, "w".to_owned()))
                .collect(),
        }],
    }
}

#[test]
fn offender_ties_keep_their_order() {
    let reports = vec![manifest_report("use-a", 1), manifest_report("use-a", 1), manifest_report("use-b", 2)];
    assert_eq!(offender_order(&reports), vec![2, 0, 1]);
}

#[test]
fn errors_and_warnings_partition_manifest_issues() {
    let mut report = manifest_report("use-a", 3);
    report.manifests[0].issues.push(ManifestIssue::error(FacadeIssueCode::InvalidCategorySlug, "e".to_owned()));
    let m = &report.manifests[0];
    assert_eq!(m.error_count() + m.warning_count(), m.issue_count());
    assert_eq!(report.error_count() + report.warning_count(), report.issue_count());
}

#[test]
fn issue_codes_parse_back_from_their_ids() {
    let code: FacadeIssueCode = "missing-workspace".parse().unwrap();
    assert_eq!(code, FacadeIssueCode::MissingWorkspace);
    assert_eq!(parse_code(FacadeIssueCode::InvalidCategorySlug.as_str()).unwrap(), FacadeIssueCode::InvalidCategorySlug);
    let refusal = "no-such-code".parse::<FacadeIssueCode>().unwrap_err();
    assert_eq!(refusal.value, "no-such-code");
    assert_eq!(refusal.message(), "unknown facade issue code: no-such-code");
}

#[test]
fn fix_groups_parse_from_their_ids() {
    assert_eq!("workspace-shape".parse::<FacadeFixGroup>(), Ok(FacadeFixGroup::WorkspaceShape));
    assert_eq!("package-metadata".parse::<FacadeFixGroup>(), Ok(FacadeFixGroup::PackageMetadata));
    assert_eq!("Workspace-Shape".parse::<FacadeFixGroup>(), Err(()));
}

#[test]
fn github_issue_code_labels_are_distinct_and_kebab_case() {
    let codes = [
        GithubIssueCode::NoIssue,
        GithubIssueCode::MissingGithubDirectory,
        GithubIssueCode::InvalidGithubDirectory,
        GithubIssueCode::MissingGithubWorkflowsDirectory,
        GithubIssueCode::InvalidGithubWorkflowsDirectory,
        GithubIssueCode::MissingGithubIssueTemplateDirectory,
        GithubIssueCode::MissingGithubWorkflow,
        GithubIssueCode::StaleGithubWorkflow,
        GithubIssueCode::InvalidGithubWorkflow,
        GithubIssueCode::MissingGithubDependabot,
        GithubIssueCode::StaleGithubDependabot,
        GithubIssueCode::InvalidGithubDependabot,
        GithubIssueCode::MissingGithubFunding,
        GithubIssueCode::StaleGithubFunding,
        GithubIssueCode::InvalidGithubFunding,
        GithubIssueCode::MissingGithubIssueTemplate,
        GithubIssueCode::StaleGithubIssueTemplate,
        GithubIssueCode::InvalidGithubIssueTemplate,
        GithubIssueCode::MissingGithubPullRequestTemplate,
        GithubIssueCode::StaleGithubPullRequestTemplate,
        GithubIssueCode::InvalidGithubPullRequestTemplate,
    ];
    let mut seen = std::collections::BTreeSet::new();
    for code in codes {
        let id = code.as_str();
        assert!(seen.insert(id), "duplicate label {id}");
        assert!(!id.is_empty() && !id.starts_with('-') && !id.ends_with('-') && !id.contains("--"));
        assert!(id.bytes().all(|b| b.is_ascii_lowercase() || b.is_ascii_digit() || b == b'-'));
    }
}

#[test]
fn repaired_wiring_passes_the_wiring_checks() {
    let krate = |package: &str| CrateInfo {
        dir_name: package.to_owned(),
        package_name: package.to_owned(),
        version: None,
        manifest_path: format!("crates/{package}/Cargo.toml"),
    };
    let children = vec![krate("use-a"), krate("use-b")];
    let mut root = parse_manifest("Cargo.toml", "[dependencies]\nuse-a = { path = \"x\" }\n[features]\ndefault = [\"a\"]\n").unwrap();
    let names: Vec<String> = children.iter().map(|c| c.package_name.clone()).collect();
    let mut before = Vec::new();
    validate_facade_dependency_and_feature_wiring(&root, &names, &mut before);
    assert!(!before.is_empty());
    repair_facade_dependencies(&mut root, &children);
    repair_facade_features(&mut root, &children);
    let mut after = Vec::new();
    validate_facade_dependency_and_feature_wiring(&root, &names, &mut after);
    assert!(after.is_empty(), "{:?}", after.iter().map(|i| i.message.clone()).collect::<Vec<_>>());
}

fn keys_are_distinct(t: &TomlTable) -> bool {
    let keys: std::collections::BTreeSet<&str> = t.entries.iter().map(|(k, _)| k.as_str()).collect();
    keys.len() == t.entries.len()
}

#[test]
fn repairs_keep_each_key_once() {
    let mut root = parse_manifest("Cargo.toml", "[workspace]\nmembers = [\"a\"]\n[workspace.package]\nedition = \"2021\"\n").unwrap();
    assert!(keys_are_distinct(&root));
    repair_workspace_shape(&mut root, "use-demo");
    assert!(keys_are_distinct(&root));
    let ws = root.get_table("workspace").unwrap();
    assert!(keys_are_distinct(ws));
    assert!(keys_are_distinct(ws.get_table("package").unwrap()));
}
