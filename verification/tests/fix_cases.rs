use rustuse_cli::fix_build::{build_plan, sort_changes};
use rustuse_cli::fix_manifest::{discover_child_crates, sort_crates, ChildSource, CrateInfo};
use rustuse_cli::fix_model::{FacadeFixPlan, FixMode, PlannedFileChange};
use rustuse_cli::fix_plan::{
    apply_plan, checked_facade_name, normalize_trailing_newline, validate_relative_path, ManifestFixGroup,
    ManifestFixSelection,
};
use rustuse_cli::fix_render::{summary_lines, summary_status, FacadeFixStatus};

fn child(dir: &str, contents: &str) -> ChildSource {
    ChildSource {
        dir_name: dir.to_owned(),
        manifest_path: format!("crates/{dir}/Cargo.toml"),
        contents: contents.to_owned(),
    }
}

fn change(path: &str) -> PlannedFileChange {
    PlannedFileChange { path: path.to_owned(), contents: "x\n".to_owned(), created: false }
}

#[test]
fn facade_name_must_start_with_use() {
    assert_eq!(checked_facade_name("use-demo"), Ok("use-demo".to_owned()));
    assert_eq!(
        checked_facade_name("demo"),
        Err("facade directory name `demo` must start with `use-`".to_owned())
    );
}

#[test]
fn build_plan_refuses_a_root_that_is_not_a_facade() {
    let r = build_plan("/work/demo", &Vec::new(), None, &Vec::new());
    assert_eq!(r.err(), Some("facade directory name `demo` must start with `use-`".to_owned()));
}

#[test]
fn build_plan_refuses_an_unknown_code() {
    let r = build_plan("/work/use-demo", &vec!["bogus".to_owned()], None, &Vec::new());
    assert_eq!(r.err(), Some("unknown manifest fix code or group `bogus`".to_owned()));
}

#[test]
fn build_plan_refuses_a_child_manifest_that_does_not_parse() {
    let r = build_plan("/work/use-demo", &Vec::new(), None, &vec![child("use-a", "[package\nname = ")]);
    let e = r.err().expect("a parse failure");
    assert!(e.starts_with("failed to parse `crates/use-a/Cargo.toml`: "), "{e}");
}

#[test]
fn build_plan_refuses_a_root_manifest_that_does_not_parse() {
    let r = build_plan("/work/use-demo", &Vec::new(), Some("= nope".to_owned()), &Vec::new());
    let e = r.err().expect("a parse failure");
    assert!(e.starts_with("failed to parse `Cargo.toml`: "), "{e}");
}

#[test]
fn build_plan_creates_a_missing_root_manifest() {
    let plan = build_plan("/work/use-demo", &Vec::new(), None, &Vec::new()).expect("a plan");
    assert_eq!(plan.root, "/work/use-demo");
    assert_eq!(plan.files_inspected, 1);
    assert_eq!(plan.files_unchanged, 0);
    assert_eq!(plan.changes.len(), 1);
    assert_eq!(plan.changes[0].path, "Cargo.toml");
    assert!(plan.changes[0].created);
    assert!(plan.changes[0].contents.ends_with('\n'));
    assert!(!plan.changes[0].contents.ends_with("\n\n"));
    assert!(plan.changes[0].contents.contains("[workspace]"));
}

#[test]
fn build_plan_repairs_children_and_sorts_changes() {
    let children = vec![
        child("use-b", "[package]\nname = \"use-b\"\nversion = \"0.1.0\"\n"),
        child("use-a", "[package]\nname = \"use-a\"\nversion = \"0.1.0\"\n"),
    ];
    let plan = build_plan("/work/use-demo", &Vec::new(), None, &children).expect("a plan");
    assert_eq!(plan.files_inspected, 3);
    assert_eq!(plan.files_unchanged + plan.changes.len(), 3);
    let paths: Vec<&str> = plan.changes.iter().map(|c| c.path.as_str()).collect();
    let mut sorted = paths.clone();
    sorted.sort();
    assert_eq!(paths, sorted);
    assert!(paths.contains(&"Cargo.toml"));
    assert!(plan.changes.iter().all(|c| c.created == (c.path == "Cargo.toml")));
    let root = plan.changes.iter().find(|c| c.path == "Cargo.toml").unwrap();
    assert!(root.contents.contains("use-a"));
    assert!(root.contents.contains("use-b"));
}

#[test]
fn a_repaired_root_manifest_needs_no_second_repair() {
    let children = vec![child("use-a", "[package]\nname = \"use-a\"\nversion = \"0.2.0\"\n")];
    let first = build_plan("/work/use-demo", &Vec::new(), None, &children).expect("a plan");
    let repaired = first.changes.iter().find(|c| c.path == "Cargo.toml").unwrap().contents.clone();
    let second = build_plan("/work/use-demo", &vec!["workspace-shape".to_owned()], Some(repaired), &children)
        .expect("a plan");
    assert_eq!(second.files_inspected, 1);
    assert!(second.changes.is_empty(), "{:?}", second.changes.iter().map(|c| &c.contents).collect::<Vec<_>>());
    assert_eq!(second.files_unchanged, 1);
}

#[test]
fn repairing_every_manifest_twice_changes_nothing_the_second_time() {
    let children = vec![
        child("use-a", "[package]\nname = \"use-a\"\nversion = \"0.2.0\"\n"),
        child("use-b", "[package]\nname = \"use-b\"\n"),
    ];
    let first = build_plan("/work/use-demo", &Vec::new(), None, &children).expect("a plan");
    assert_eq!(first.files_inspected, 3);
    let root = first.changes.iter().find(|c| c.path == "Cargo.toml").unwrap().contents.clone();
    let repaired: Vec<ChildSource> = children
        .iter()
        .map(|c| {
            let contents = first
                .changes
                .iter()
                .find(|change| change.path == c.manifest_path)
                .map(|change| change.contents.clone())
                .unwrap_or_else(|| c.contents.clone());
            ChildSource { dir_name: c.dir_name.clone(), manifest_path: c.manifest_path.clone(), contents }
        })
        .collect();
    let second = build_plan("/work/use-demo", &Vec::new(), Some(root), &repaired).expect("a plan");
    assert_eq!(second.files_inspected, 3);
    assert!(second.changes.is_empty(), "{:?}", second.changes.iter().map(|c| &c.path).collect::<Vec<_>>());
    assert_eq!(second.files_unchanged, 3);
}

#[test]
fn package_metadata_only_still_inspects_children() {
    let children = vec![child("use-a", "[package]\nname = \"use-a\"\n")];
    let plan = build_plan("/work/use-demo", &vec!["facade-wiring".to_owned()], None, &children).expect("a plan");
    assert_eq!(plan.files_inspected, 1);
    let plan = build_plan("/work/use-demo", &vec!["package-metadata".to_owned()], None, &children).expect("a plan");
    assert_eq!(plan.files_inspected, 2);
}

#[test]
fn discovery_skips_a_child_named_like_the_facade() {
    let children = vec![
        child("use-demo", "[package]\nname = \"use-demo\"\n"),
        child("use-z", "[package]\nname = \"use-z\"\n"),
        child("use-m", ""),
    ];
    let found = discover_child_crates(&children, "use-demo").expect("crates");
    let names: Vec<&str> = found.iter().map(|c| c.package_name.as_str()).collect();
    assert_eq!(names, vec!["use-m", "use-z"]);
}

#[test]
fn sort_changes_orders_by_path() {
    let sorted = sort_changes(vec![change("b"), change("a/z"), change("a")]);
    let paths: Vec<&str> = sorted.iter().map(|c| c.path.as_str()).collect();
    assert_eq!(paths, vec!["a", "a/z", "b"]);
}

#[test]
fn sort_changes_keeps_the_order_of_equal_paths() {
    let mut first = change("b");
    first.contents = "first\n".to_owned();
    let mut second = change("b");
    second.contents = "second\n".to_owned();
    let sorted = sort_changes(vec![first, change("c"), second, change("a")]);
    let got: Vec<(&str, &str)> = sorted.iter().map(|c| (c.path.as_str(), c.contents.as_str())).collect();
    assert_eq!(got, vec![("a", "x\n"), ("b", "first\n"), ("b", "second\n"), ("c", "x\n")]);
}

#[test]
fn sort_crates_orders_by_package_then_directory_and_keeps_ties() {
    let krate = |dir: &str, package: &str, version: &str| CrateInfo {
        dir_name: dir.to_owned(),
        package_name: package.to_owned(),
        version: Some(version.to_owned()),
        manifest_path: format!("crates/{dir}/Cargo.toml"),
    };
    let sorted = sort_crates(vec![
        krate("z", "use-b", "1"),
        krate("y", "use-b", "2"),
        krate("x", "use-a", "3"),
        krate("y", "use-b", "4"),
    ]);
    let got: Vec<(&str, &str, &str)> = sorted
        .iter()
        .map(|c| (c.package_name.as_str(), c.dir_name.as_str(), c.version.as_deref().unwrap()))
        .collect();
    assert_eq!(got, vec![("use-a", "x", "3"), ("use-b", "y", "2"), ("use-b", "y", "4"), ("use-b", "z", "1")]);
}

#[test]
fn trailing_newlines_are_normalised() {
    assert_eq!(normalize_trailing_newline("a\n\n\n".to_owned()), "a\n");
    assert_eq!(normalize_trailing_newline("a".to_owned()), "a\n");
    assert_eq!(normalize_trailing_newline(String::new()), "\n");
}

#[test]
fn relative_paths_stay_inside_the_root() {
    assert_eq!(validate_relative_path("crates/use-a/Cargo.toml"), Ok(()));
    assert_eq!(
        validate_relative_path("/etc/passwd"),
        Err("planned repair path `/etc/passwd` must be relative to the facade root".to_owned())
    );
    assert_eq!(
        validate_relative_path("crates/../../x"),
        Err("planned repair path `crates/../../x` cannot contain `..`".to_owned())
    );
    assert_eq!(validate_relative_path(""), Err("planned repair contains an empty path".to_owned()));
    assert_eq!(validate_relative_path("a..b/c"), Ok(()));
}

fn two_change_plan() -> FacadeFixPlan {
    FacadeFixPlan {
        root: "/work/use-demo".to_owned(),
        files_inspected: 3,
        files_unchanged: 1,
        changes: vec![
            PlannedFileChange { path: "Cargo.toml".to_owned(), contents: "a\n".to_owned(), created: true },
            change("crates/use-a/Cargo.toml"),
        ],
    }
}

#[test]
fn a_dry_run_writes_nothing_and_write_mode_everything() {
    let plan = two_change_plan();
    let dry = apply_plan(&plan, FixMode::DryRun).expect("summary");
    assert!(dry.changes.iter().all(|c| !c.wrote));
    assert_eq!(summary_status(&plan, &dry), FacadeFixStatus::DryRun);
    let written = apply_plan(&plan, FixMode::Write).expect("summary");
    assert!(written.changes.iter().all(|c| c.wrote));
    assert_eq!(written.files_changed, 2);
    assert_eq!(written.files_created, 1);
    assert_eq!(summary_status(&plan, &written), FacadeFixStatus::Fixed);
}

#[test]
fn apply_refuses_a_path_outside_the_root() {
    let mut plan = two_change_plan();
    plan.changes.push(change("../escape"));
    assert_eq!(
        apply_plan(&plan, FixMode::Write).err(),
        Some("planned repair path `../escape` cannot contain `..`".to_owned())
    );
}

#[test]
fn summary_lines_report_each_change() {
    let plan = two_change_plan();
    let summary = apply_plan(&plan, FixMode::DryRun).expect("summary");
    assert_eq!(
        summary_lines(FixMode::DryRun, &plan, &summary),
        vec![
            "RustUse facade fix - root: /work/use-demo",
            "mode: dry-run",
            "status: dry-run",
            "files inspected: 3",
            "files changed: 2",
            "files written: 0",
            "files created: 1",
            "files unchanged: 1",
            "",
            "changed files:",
            "- would write: Cargo.toml (created)",
            "- would write: crates/use-a/Cargo.toml",
        ]
    );
}

#[test]
fn an_empty_plan_is_unchanged() {
    let plan = FacadeFixPlan { root: "/r".to_owned(), files_inspected: 1, files_unchanged: 1, changes: Vec::new() };
    let summary = apply_plan(&plan, FixMode::Write).expect("summary");
    assert_eq!(summary_status(&plan, &summary), FacadeFixStatus::Unchanged);
    assert_eq!(summary_lines(FixMode::Write, &plan, &summary).len(), 8);
}

#[test]
fn selection_of_groups_is_their_union() {
    let mut s = ManifestFixSelection::from_group(ManifestFixGroup::FacadeWiring);
    assert!(!s.repair_child_manifests);
    s.add_group(ManifestFixGroup::PackageMetadata);
    assert!(s.repair_child_manifests);
    assert!(s.repairs.facade_wiring && s.repairs.package_metadata);
    assert!(!s.repairs.workspace_shape);
    let all = ManifestFixSelection::from_codes(&Vec::new()).expect("all");
    assert!(all.repairs.workspace_shape && all.repairs.workspace_dependencies && all.repair_child_manifests);
    let by_code = ManifestFixSelection::from_codes(&vec!["missing-workspace-resolver".to_owned()]).expect("shape");
    assert!(by_code.repairs.workspace_shape && !by_code.repairs.facade_wiring);
}
