use std::collections::BTreeSet;
use std::str::FromStr;

use rustuse_cli::catalog::{all_entries, entries, find_by_name, search};
use rustuse_cli::codes::all_codes;
use rustuse_cli::codes::FacadeIssueCode;
use rustuse_cli::commands::CargoInstallOptions;
use rustuse_cli::fix_model::{FacadeFixGroup, FacadeFixOptions, FacadeFixTarget, FixMode};
use rustuse_cli::github_issue::{GithubIssue, GithubIssueCode, GithubIssueSeverity};

#[test]
fn display_command_includes_enabled_options() {
    let options = CargoInstallOptions { package: "rustuse-cli", force: true, locked: true };

    assert_eq!(options.display_command(), "cargo install rustuse-cli --force --locked");
}

#[test]
fn display_command_omits_disabled_options() {
    let options = CargoInstallOptions { package: "rustuse-cli", force: false, locked: false };

    assert_eq!(options.display_command(), "cargo install rustuse-cli");
}

#[test]
fn severity_labels_are_stable() {
    assert_eq!(GithubIssueSeverity::Error.as_str(), "error");
    assert_eq!(GithubIssueSeverity::Warning.as_str(), "warning");
    assert_eq!(GithubIssueSeverity::Info.as_str(), "info");
}

#[test]
fn issue_code_labels_are_stable() {
    assert_eq!(GithubIssueCode::MissingGithubWorkflow.as_str(), "missing-github-workflow");
    assert_eq!(GithubIssueCode::StaleGithubPullRequestTemplate.as_str(), "stale-github-pr-template");
}

#[test]
fn issue_helpers_match_severity() {
    let issue = GithubIssue::new(
        GithubIssueSeverity::Error,
        GithubIssueCode::InvalidGithubDirectory,
        ".github".to_owned(),
        "Expected `.github/` to be a directory.".to_owned(),
    );

    assert!(issue.is_error());
    assert!(!issue.is_warning());
    assert!(!issue.is_info());
}

#[test]
fn index_is_sorted_by_name() {
    let entries = entries();
    let mut sorted = entries.to_vec();
    sorted.sort_by(|left, right| left.name.cmp(&right.name));

    assert_eq!(entries, sorted);
}

#[test]
fn index_has_no_duplicate_names() {
    let entries = entries();
    let mut names: Vec<&str> = entries.iter().map(|entry| entry.name.as_str()).collect();
    names.sort_unstable();
    let unique = names.len();
    names.dedup();

    assert_eq!(unique, names.len());
}

#[test]
fn finds_known_entry_by_name() {
    let entry = find_by_name("use-geometry").expect("use-geometry is in the catalog");
    assert_eq!(entry.name, "use-geometry");
}

#[test]
fn unknown_name_returns_none() {
    assert!(find_by_name("use-does-not-exist").is_none());
}

#[test]
fn all_entries_is_non_empty() {
    assert!(!all_entries().is_empty());
}

#[test]
fn finds_geometry_outside_a_rustuse_root() {
    let results = search("geometry");
    assert_eq!(results.len(), 1);
    assert_eq!(results[0].name, "use-geometry");
}

#[test]
fn search_is_case_insensitive() {
    assert_eq!(search("GEOMETRY").len(), 1);
}

#[test]
fn empty_query_returns_no_results() {
    assert!(search("   ").is_empty());
}

#[test]
fn matches_by_set() {
    let results = search("use-math");
    assert!(results.iter().any(|entry| entry.name == "use-math"));
    assert!(results.iter().any(|entry| entry.name == "use-combinatorics"));
}

#[test]
fn facade_issue_code_ids_are_unique() {
    let mut ids = BTreeSet::new();

    for code in all_codes() {
        assert!(ids.insert(code.as_str()), "duplicate facade issue code: {}", code.as_str());
    }
}

#[test]
fn facade_issue_code_ids_use_kebab_case() {
    for code in all_codes() {
        let id = code.as_str();

        assert!(!id.is_empty(), "facade issue code cannot be empty");

        assert!(!id.starts_with('-') && !id.ends_with('-'), "facade issue code has an outer hyphen: {id}");

        assert!(!id.contains("--"), "facade issue code has consecutive hyphens: {id}");

        assert!(
            id.bytes().all(|byte| byte.is_ascii_lowercase() || byte.is_ascii_digit() || byte == b'-'),
            "facade issue code is not lowercase kebab-case: {id}"
        );
    }
}

#[test]
fn parses_fix_group() {
    assert_eq!(
        FacadeFixTarget::from_str("workspace-shape"),
        Ok(FacadeFixTarget::Group(FacadeFixGroup::WorkspaceShape))
    );
}

#[test]
fn parses_issue_code() {
    assert_eq!(
        FacadeFixTarget::from_str("missing-workspace-members"),
        Ok(FacadeFixTarget::Issue(FacadeIssueCode::MissingWorkspaceMembers))
    );
}

#[test]
fn trims_fix_target_input() {
    assert_eq!(
        FacadeFixTarget::from_str("  package-metadata  "),
        Ok(FacadeFixTarget::Group(FacadeFixGroup::PackageMetadata))
    );
}

#[test]
fn rejects_empty_fix_target() {
    assert_eq!(FacadeFixTarget::from_str("   "), Err("facade fix code cannot be empty".to_owned()));
}

#[test]
fn rejects_all_as_a_code() {
    assert_eq!(FacadeFixTarget::from_str("all"), Err("use `--all` instead of `--code all`".to_owned()));
}

#[test]
fn rejects_unknown_fix_target() {
    assert_eq!(
        FacadeFixTarget::from_str("unknown-target"),
        Err("unknown facade fix issue code or group `unknown-target`".to_owned())
    );
}

#[test]
fn with_target_ignores_duplicates() {
    let target = FacadeFixTarget::Group(FacadeFixGroup::FacadeWiring);

    let options = FacadeFixOptions::new(FixMode::DryRun).with_target(target).with_target(target);

    assert_eq!(options.targets, vec![target]);
}

#[test]
fn fix_group_display_uses_canonical_id() {
    assert_eq!(FacadeFixGroup::WorkspaceDependencies.as_str(), "workspace-dependencies");
}
