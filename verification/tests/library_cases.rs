use rustuse_cli::adoption::{plan_adoption, AdoptionMode};
use rustuse_cli::commands::{command_failure_message, empty_label, format_command, CommandOutput};
use rustuse_cli::config::{ensure_trailing_newline, RustUseConfig};
use rustuse_cli::fix_manifest::{parse_manifest, render_manifest};
use rustuse_cli::fleet_model::package_version;
use rustuse_cli::github_model::GithubTarget;
use rustuse_cli::github_policy::standard_github_policy;
use rustuse_cli::manifest_analysis::{analyze_facade_repository_manifests, ChildManifest, ManifestSource};
use rustuse_cli::manifest_facade::feature_name_for_child_crate;
use rustuse_cli::manifest_model::ManifestKind;
use rustuse_cli::project::{config_path, detect, join, lock_path, PathPresence};
use rustuse_cli::toml_edit::{remove_key, set_string, set_string_if_missing};
use rustuse_cli::toml_tree::{TomlTable, TomlValue};

#[test]
fn project_paths_join_the_root() {
    assert_eq!(join("/p", "Cargo.toml"), "/p/Cargo.toml");
    assert_eq!(join("/p/", "Cargo.toml"), "/p/Cargo.toml");
    assert_eq!(join("", "Cargo.toml"), "Cargo.toml");
    assert_eq!(lock_path("/p"), "/p/rustuse.lock");
    assert_eq!(config_path("/p"), "/p/rustuse.toml");
    let state = detect(
        "/p",
        PathPresence {
            cargo_toml_is_file: true,
            config_is_file: false,
            lock_is_file: false,
            state_dir_is_dir: true,
            cache_dir_is_dir: false,
            snapshots_dir_is_dir: false,
        },
    );
    assert_eq!(state.snapshots_dir_path, "/p/.rustuse/snapshots");
    assert!(state.has_cargo_toml && !state.has_config && state.has_state_dir);
}

#[test]
fn fresh_configs_differ_by_adoption() {
    let cargo = RustUseConfig::cargo_first("demo".to_owned());
    assert_eq!(cargo.project.copy_root, "src");
    assert_eq!(cargo.project.default_adoption.as_str(), "cargo");
    let copy = RustUseConfig::copy_first("demo".to_owned());
    assert_eq!(copy.project.copy_root, "src/rustuse");
    assert_eq!(copy.project.test_root, "tests/rustuse");
    assert!(copy.primitives.is_empty() && copy.tracking.cache);
    assert_eq!(ensure_trailing_newline("a = 1".to_owned()), "a = 1\n");
    assert_eq!(ensure_trailing_newline("a = 1\n".to_owned()), "a = 1\n");
}

#[test]
fn adoption_is_planned_only_for_cargo_entries() {
    assert_eq!(plan_adoption("use-geometry", AdoptionMode::Cargo), Ok("use-geometry".to_owned()));
    assert_eq!(
        plan_adoption("use-nothing", AdoptionMode::Cargo),
        Err("No RustUse entry found for `use-nothing`.".to_owned())
    );
    assert_eq!(
        plan_adoption("use-geometry", AdoptionMode::Own),
        Err("Owned-source adoption is not implemented yet for `use-geometry`. Use the default Cargo adoption mode for now."
            .to_owned())
    );
}

#[test]
fn command_text_and_failures() {
    let args = vec!["install".to_owned(), "x".to_owned()];
    assert_eq!(format_command("cargo", &args), "cargo install x");
    assert_eq!(format_command("cargo", &Vec::new()), "cargo");
    assert_eq!(empty_label(""), "<empty>");
    let output = CommandOutput::from_raw("  done \n", "", Some(101));
    assert_eq!(output.stdout, "done");
    assert_eq!(
        command_failure_message("cargo", &args, "/p", &output),
        "command failed: `cargo install x` in `/p`\nstatus: 101\nstdout:\ndone\nstderr:\n<empty>"
    );
    let killed = CommandOutput::from_raw("", "", None);
    assert!(command_failure_message("cargo", &args, "/p", &killed).contains("status: terminated by signal"));
    let negative = CommandOutput::from_raw("", "", Some(-3));
    assert!(command_failure_message("cargo", &args, "/p", &negative).contains("status: -3\n"));
}

#[test]
fn github_targets_are_named_by_their_directory() {
    assert_eq!(GithubTarget::from_facade_path("/work/use-quant/").facade, "use-quant");
    assert_eq!(GithubTarget::from_facade_path("use-quant/.").facade, "use-quant");
    assert_eq!(GithubTarget::from_facade_path("/").facade, ".");
    assert!(!standard_github_policy().required_files.is_empty());
}

#[test]
fn feature_names_drop_the_use_prefix() {
    assert_eq!(feature_name_for_child_crate("use-math-core"), "math-core");
    assert_eq!(feature_name_for_child_crate("geometry"), "geometry");
}

#[test]
fn toml_documents_parse_and_render() {
    let doc = parse_manifest("Cargo.toml", "[package]\nname = \"use-a\"\nversion = \"0.1.0\"\n").expect("parses");
    let package = doc.get_table("package").expect("package table");
    assert_eq!(package.get_str("name").map(|s| s.as_str()), Some("use-a"));
    let refusal = parse_manifest("Cargo.toml", "[package\n").unwrap_err();
    assert!(refusal.starts_with("failed to parse `Cargo.toml`: "));
    assert!(parse_manifest("Cargo.toml", "  \n").expect("blank is empty").entries.is_empty());
    let mut t = TomlTable::new();
    set_string(&mut t, "b", "2");
    set_string_if_missing(&mut t, "b", "3");
    set_string_if_missing(&mut t, "a", "1");
    assert_eq!(t.get_str("b").map(|s| s.as_str()), Some("2"));
    remove_key(&mut t, "a");
    assert!(!t.contains_key("a"));
    t.insert("n".to_owned(), TomlValue::Integer(7));
    let text = render_manifest("Cargo.toml", &t).expect("renders");
    assert!(text.ends_with('\n'));
    assert!(text.contains("b = \"2\""));
    assert!(text.contains("n = 7"));
}

#[test]
fn facade_version_is_read_from_the_package_table() {
    assert_eq!(package_version("[package]\nname = \"use-a\"\nversion = \"1.2.3\"\n"), Some("1.2.3".to_owned()));
    assert_eq!(package_version("[workspace]\nmembers = []\n"), None);
    assert_eq!(package_version("[package]\nversion = 3\n"), None);
    assert_eq!(package_version("[package"), None);
}

fn source(path: &str, text: &str) -> ManifestSource {
    ManifestSource { display_path: path.to_owned(), contents: Ok(text.to_owned()) }
}

#[test]
fn repository_manifests_are_analysed_root_first() {
    let root = source(
        "Cargo.toml",
        "[workspace]\nmembers = [\"crates/*\"]\nresolver = \"3\"\n\n[package]\nname = \"use-demo\"\nversion = \"0.1.0\"\n",
    );
    let children = vec![
        ChildManifest { dir_name: "use-b".to_owned(), source: source("crates/use-b/Cargo.toml", "[package]\nname = \"use-b\"\n") },
        ChildManifest { dir_name: "use-a".to_owned(), source: source("crates/use-a/Cargo.toml", "[package\n") },
    ];
    let report = analyze_facade_repository_manifests("use-demo", Some(root), children);
    assert_eq!(report.facade_name, "use-demo");
    assert_eq!(report.manifests[0].kind, ManifestKind::WorkspaceRoot);
    assert!(report.manifests.len() >= 3);
    assert!(report.error_count() >= 1);
    assert_eq!(report.status(), "error");
}
