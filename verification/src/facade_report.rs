//! The Markdown report of one facade repository: its sections, each
//! appended in turn from the facade's diagnostics.

use vstd::prelude::*;
use vstd::string::StringExecFns;

use crate::facade_diagnostics::{count_facade_severity, count_fixable, FacadeDiagnostics};
use crate::facade_issue::{facade_issue_views, status_from_counts, status_label, worse, FacadeIssueSeverity};
use crate::facade_model::shape_status;
use crate::facade_surface::{
    absent_paths, count_present, present_checks_of, presence_status, surface_status_label, NonStandardPathCheck,
    PresenceCheck, RepositorySurfaceCheck, SurfaceStatus,
};
use crate::markdown::{presence_table, write_presence_table, yes_no, yes_no_text};
use crate::text::{decimal, push_decimal, push_str, views};

verus! {

/// The number of errors of a facade.
pub open spec fn diag_errors(d: FacadeDiagnostics) -> nat {
    count_facade_severity(facade_issue_views(d.issues@), FacadeIssueSeverity::Error)
}

/// The number of warnings of a facade.
pub open spec fn diag_warnings(d: FacadeDiagnostics) -> nat {
    count_facade_severity(facade_issue_views(d.issues@), FacadeIssueSeverity::Warning)
}

/// The number of issues of a facade that have a repair.
pub open spec fn diag_fixable(d: FacadeDiagnostics) -> nat {
    count_fixable(facade_issue_views(d.issues@))
}

/// The status label of a facade.
pub open spec fn diag_status(d: FacadeDiagnostics) -> Seq<char> {
    status_label(
        worse(
            shape_status(d.facade.found.manifest_is_file, d.facade.found.git_dir_is_dir, d.facade.found.crates_dir_is_dir,
                d.facade.crate_manifest_paths@.len()),
            status_from_counts(diag_errors(d), diag_warnings(d)),
        ),
    )
}

/// The title and summary of a facade report.
pub open spec fn summary_text(d: FacadeDiagnostics) -> Seq<char> {
    "# RustUse Facade Report\n\n"@ + "## Summary\n\n"@
        + "- Root: `"@ + d.facade.root@ + "`\n"@
        + "- Facade: `"@ + d.facade.name@ + "`\n"@
        + "- Git: `"@ + yes_no_text(d.facade.found.git_dir_is_dir) + "`\n"@
        + "- Cargo.toml: `"@ + yes_no_text(d.facade.found.manifest_is_file) + "`\n"@
        + "- crates/: `"@ + yes_no_text(d.facade.found.crates_dir_is_dir) + "`\n"@
        + "- Child crate manifests: `"@ + decimal(d.facade.crate_manifest_paths@.len()) + "`\n"@
        + "- Manifests inspected: `"@ + decimal(d.manifest.manifests@.len()) + "`\n"@
        + "- Issues: `"@ + decimal(d.issues@.len()) + "`\n"@
        + "- Errors: `"@ + decimal(diag_errors(d)) + "`\n"@
        + "- Warnings: `"@ + decimal(diag_warnings(d)) + "`\n"@
        + "- Fixable issues: `"@ + decimal(diag_fixable(d)) + "`\n"@
        + "- Status: **"@ + diag_status(d) + "**\n\n"@
}

/// Appends the title and summary of the report.
pub fn write_summary(markdown: &mut String, d: &FacadeDiagnostics)
    ensures
        final(markdown)@ == old(markdown)@ + summary_text(*d),
{
    let mut s = String::from_str("# RustUse Facade Report\n\n");
    push_str(&mut s, "## Summary\n\n");
    push_str(&mut s, "- Root: `");
    push_str(&mut s, d.facade.root.as_str());
    push_str(&mut s, "`\n");
    push_str(&mut s, "- Facade: `");
    push_str(&mut s, d.facade.name.as_str());
    push_str(&mut s, "`\n");
    push_str(&mut s, "- Git: `");
    push_str(&mut s, yes_no(d.facade.has_git()));
    push_str(&mut s, "`\n");
    push_str(&mut s, "- Cargo.toml: `");
    push_str(&mut s, yes_no(d.facade.has_manifest()));
    push_str(&mut s, "`\n");
    push_str(&mut s, "- crates/: `");
    push_str(&mut s, yes_no(d.facade.has_crates_dir()));
    push_str(&mut s, "`\n");
    push_str(&mut s, "- Child crate manifests: `");
    push_decimal(&mut s, d.facade.crate_count());
    push_str(&mut s, "`\n");
    push_str(&mut s, "- Manifests inspected: `");
    push_decimal(&mut s, d.manifest.manifest_count());
    push_str(&mut s, "`\n");
    push_str(&mut s, "- Issues: `");
    push_decimal(&mut s, d.issue_count());
    push_str(&mut s, "`\n");
    push_str(&mut s, "- Errors: `");
    push_decimal(&mut s, d.error_count());
    push_str(&mut s, "`\n");
    push_str(&mut s, "- Warnings: `");
    push_decimal(&mut s, d.warning_count());
    push_str(&mut s, "`\n");
    push_str(&mut s, "- Fixable issues: `");
    push_decimal(&mut s, d.fixable_count());
    push_str(&mut s, "`\n");
    push_str(&mut s, "- Status: **");
    push_str(&mut s, d.status());
    push_str(&mut s, "**\n\n");
    push_str(markdown, s.as_str());
}

/// The table of contents of a facade report.
pub open spec fn contents_text() -> Seq<char> {
    "## Contents\n\n"@
        + "- [Action Plan](#action-plan)\n"@
        + "- [Expected Facade Structure](#expected-facade-structure)\n"@
        + "- [Facade Shape](#facade-shape)\n"@
        + "- [Repository Surface](#repository-surface)\n"@
        + "- [Cargo Manifest Health](#cargo-manifest-health)\n"@
        + "- [Child Crates](#child-crates)\n"@
        + "- [Crate Documentation Consistency](#crate-documentation-consistency)\n"@
        + "- [Standard File Consistency](#standard-file-consistency)\n"@
        + "- [Non-standard Paths](#non-standard-paths)\n"@
        + "- [Tooling Configuration](#tooling-configuration)\n"@
        + "- [CI/CD Surface](#cicd-surface)\n"@
        + "- [Documentation Surface](#documentation-surface)\n"@
        + "- [Release Surface](#release-surface)\n"@
        + "- [Notes](#notes)\n\n"@
}

/// Appends the table of contents.
pub fn write_contents(markdown: &mut String)
    ensures
        final(markdown)@ == old(markdown)@ + contents_text(),
{
    let mut s = String::from_str("## Contents\n\n");
    push_str(&mut s, "- [Action Plan](#action-plan)\n");
    push_str(&mut s, "- [Expected Facade Structure](#expected-facade-structure)\n");
    push_str(&mut s, "- [Facade Shape](#facade-shape)\n");
    push_str(&mut s, "- [Repository Surface](#repository-surface)\n");
    push_str(&mut s, "- [Cargo Manifest Health](#cargo-manifest-health)\n");
    push_str(&mut s, "- [Child Crates](#child-crates)\n");
    push_str(&mut s, "- [Crate Documentation Consistency](#crate-documentation-consistency)\n");
    push_str(&mut s, "- [Standard File Consistency](#standard-file-consistency)\n");
    push_str(&mut s, "- [Non-standard Paths](#non-standard-paths)\n");
    push_str(&mut s, "- [Tooling Configuration](#tooling-configuration)\n");
    push_str(&mut s, "- [CI/CD Surface](#cicd-surface)\n");
    push_str(&mut s, "- [Documentation Surface](#documentation-surface)\n");
    push_str(&mut s, "- [Release Surface](#release-surface)\n");
    push_str(&mut s, "- [Notes](#notes)\n\n");
    push_str(markdown, s.as_str());
}

/// The layout a facade repository is expected to have.
pub open spec fn expected_tree_text() -> Seq<char> {
    "```txt\n"@
        + "use-example/\n"@
        + "├── .cargo/\n"@
        + "├── .github/\n"@
        + "│   └── workflows/\n"@
        + "├── .gitlab/\n"@
        + "├── crates/\n"@
        + "│   ├── use-child-one/\n"@
        + "│   │   ├── Cargo.toml\n"@
        + "│   │   ├── README.md\n"@
        + "│   │   └── src/\n"@
        + "│   │       └── lib.rs\n"@
        + "│   └── use-child-two/\n"@
        + "│       ├── Cargo.toml\n"@
        + "│       ├── README.md\n"@
        + "│       └── src/\n"@
        + "│           └── lib.rs\n"@
        + "├── src/\n"@
        + "│   ├── lib.rs\n"@
        + "│   └── prelude.rs\n"@
        + "├── Cargo.toml\n"@
        + "├── Cargo.lock\n"@
        + "├── README.md\n"@
        + "├── CHANGELOG.md\n"@
        + "├── CONTRIBUTING.md\n"@
        + "├── GOVERNANCE.md\n"@
        + "├── MAINTAINERS.md\n"@
        + "├── RELEASE.md\n"@
        + "├── RELEASING.md\n"@
        + "├── release-plz.toml\n"@
        + "├── rust-toolchain.toml\n"@
        + "├── deny.toml\n"@
        + "├── LICENSE\n"@
        + "├── LICENSE-APACHE\n"@
        + "└── LICENSE-MIT\n"@
        + "```\n\n"@
}

fn write_expected_tree(markdown: &mut String)
    ensures
        final(markdown)@ == old(markdown)@ + expected_tree_text(),
{
    let mut s = String::from_str("```txt\n");
    push_str(&mut s, "use-example/\n");
    push_str(&mut s, "├── .cargo/\n");
    push_str(&mut s, "├── .github/\n");
    push_str(&mut s, "│   └── workflows/\n");
    push_str(&mut s, "├── .gitlab/\n");
    push_str(&mut s, "├── crates/\n");
    push_str(&mut s, "│   ├── use-child-one/\n");
    push_str(&mut s, "│   │   ├── Cargo.toml\n");
    push_str(&mut s, "│   │   ├── README.md\n");
    push_str(&mut s, "│   │   └── src/\n");
    push_str(&mut s, "│   │       └── lib.rs\n");
    push_str(&mut s, "│   └── use-child-two/\n");
    push_str(&mut s, "│       ├── Cargo.toml\n");
    push_str(&mut s, "│       ├── README.md\n");
    push_str(&mut s, "│       └── src/\n");
    push_str(&mut s, "│           └── lib.rs\n");
    push_str(&mut s, "├── src/\n");
    push_str(&mut s, "│   ├── lib.rs\n");
    push_str(&mut s, "│   └── prelude.rs\n");
    push_str(&mut s, "├── Cargo.toml\n");
    push_str(&mut s, "├── Cargo.lock\n");
    push_str(&mut s, "├── README.md\n");
    push_str(&mut s, "├── CHANGELOG.md\n");
    push_str(&mut s, "├── CONTRIBUTING.md\n");
    push_str(&mut s, "├── GOVERNANCE.md\n");
    push_str(&mut s, "├── MAINTAINERS.md\n");
    push_str(&mut s, "├── RELEASE.md\n");
    push_str(&mut s, "├── RELEASING.md\n");
    push_str(&mut s, "├── release-plz.toml\n");
    push_str(&mut s, "├── rust-toolchain.toml\n");
    push_str(&mut s, "├── deny.toml\n");
    push_str(&mut s, "├── LICENSE\n");
    push_str(&mut s, "├── LICENSE-APACHE\n");
    push_str(&mut s, "└── LICENSE-MIT\n");
    push_str(&mut s, "```\n\n");
    push_str(markdown, s.as_str());
}

/// The manifest shapes a facade repository is expected to have.
pub open spec fn expected_manifests_text() -> Seq<char> {
    "### Root package workspace\n\n"@
        + "The facade root should contain the publishable facade package and the workspace definition.\n\n"@
        + "```toml\n"@
        + "[workspace]\n"@
        + "members = [\"crates/*\"]\n"@
        + "default-members = [\".\"]\n"@
        + "resolver = \"3\"\n"@
        + "```\n\n"@
        + "### Facade feature wiring\n\n"@
        + "Child crates should be exposed through optional dependencies and explicit feature gates.\n\n"@
        + "```toml\n"@
        + "[features]\n"@
        + "default = []\n"@
        + "full = [\"child-one\", \"child-two\"]\n\n"@
        + "child-one = [\"dep:use-child-one\"]\n"@
        + "child-two = [\"dep:use-child-two\"]\n\n"@
        + "[dependencies]\n"@
        + "use-child-one = { workspace = true, optional = true }\n"@
        + "use-child-two = { workspace = true, optional = true }\n"@
        + "```\n\n"@
}

fn write_expected_manifests(markdown: &mut String)
    ensures
        final(markdown)@ == old(markdown)@ + expected_manifests_text(),
{
    let mut s = String::from_str("### Root package workspace\n\n");
    push_str(&mut s, "The facade root should contain the publishable facade package and the workspace definition.\n\n");
    push_str(&mut s, "```toml\n");
    push_str(&mut s, "[workspace]\n");
    push_str(&mut s, "members = [\"crates/*\"]\n");
    push_str(&mut s, "default-members = [\".\"]\n");
    push_str(&mut s, "resolver = \"3\"\n");
    push_str(&mut s, "```\n\n");
    push_str(&mut s, "### Facade feature wiring\n\n");
    push_str(&mut s, "Child crates should be exposed through optional dependencies and explicit feature gates.\n\n");
    push_str(&mut s, "```toml\n");
    push_str(&mut s, "[features]\n");
    push_str(&mut s, "default = []\n");
    push_str(&mut s, "full = [\"child-one\", \"child-two\"]\n\n");
    push_str(&mut s, "child-one = [\"dep:use-child-one\"]\n");
    push_str(&mut s, "child-two = [\"dep:use-child-two\"]\n\n");
    push_str(&mut s, "[dependencies]\n");
    push_str(&mut s, "use-child-one = { workspace = true, optional = true }\n");
    push_str(&mut s, "use-child-two = { workspace = true, optional = true }\n");
    push_str(&mut s, "```\n\n");
    push_str(markdown, s.as_str());
}

/// The shape each child crate is expected to have.
pub open spec fn expected_child_text() -> Seq<char> {
    "### Child crate minimum shape\n\n"@
        + "Each child crate should follow this minimum structure:\n\n"@
        + "```txt\n"@
        + "crates/use-child/\n"@
        + "├── Cargo.toml\n"@
        + "├── README.md\n"@
        + "└── src/\n"@
        + "    └── lib.rs\n"@
        + "```\n\n"@
        + "### Workspace lint inheritance\n\n"@
        + "Child crates should inherit workspace lint policy from the facade root.\n\n"@
        + "```toml\n"@
        + "[lints]\n"@
        + "workspace = true\n"@
        + "```\n\n"@
}

fn write_expected_child(markdown: &mut String)
    ensures
        final(markdown)@ == old(markdown)@ + expected_child_text(),
{
    let mut s = String::from_str("### Child crate minimum shape\n\n");
    push_str(&mut s, "Each child crate should follow this minimum structure:\n\n");
    push_str(&mut s, "```txt\n");
    push_str(&mut s, "crates/use-child/\n");
    push_str(&mut s, "├── Cargo.toml\n");
    push_str(&mut s, "├── README.md\n");
    push_str(&mut s, "└── src/\n");
    push_str(&mut s, "    └── lib.rs\n");
    push_str(&mut s, "```\n\n");
    push_str(&mut s, "### Workspace lint inheritance\n\n");
    push_str(&mut s, "Child crates should inherit workspace lint policy from the facade root.\n\n");
    push_str(&mut s, "```toml\n");
    push_str(&mut s, "[lints]\n");
    push_str(&mut s, "workspace = true\n");
    push_str(&mut s, "```\n\n");
    push_str(markdown, s.as_str());
}

/// The section on the structure a facade repository is expected to have.
pub open spec fn expected_structure_text() -> Seq<char> {
    "## Expected Facade Structure\n\n"@
        + "A RustUse facade repository is expected to be a root package workspace. The repository root is both the facade crate and the Cargo workspace root.\n\n"@
        + expected_tree_text() + expected_manifests_text() + expected_child_text()
}

/// Appends the section on the expected facade structure.
pub fn write_expected_facade_structure(markdown: &mut String)
    ensures
        final(markdown)@ == old(markdown)@ + expected_structure_text(),
{
    let mut s = String::from_str("## Expected Facade Structure\n\n");
    push_str(
        &mut s,
        "A RustUse facade repository is expected to be a root package workspace. The repository root is both the facade crate and the Cargo workspace root.\n\n",
    );
    write_expected_tree(&mut s);
    write_expected_manifests(&mut s);
    write_expected_child(&mut s);
    push_str(markdown, s.as_str());
}

/// The section on the detected shape of a facade.
pub open spec fn shape_text(d: FacadeDiagnostics) -> Seq<char> {
    "## Facade Shape\n\n"@ + "| Check | Status |\n"@ + "|---|---:|\n"@
        + "| `.git` | "@ + yes_no_text(d.facade.found.git_dir_is_dir) + " |\n"@
        + "| `Cargo.toml` | "@ + yes_no_text(d.facade.found.manifest_is_file) + " |\n"@
        + "| `crates/` | "@ + yes_no_text(d.facade.found.crates_dir_is_dir) + " |\n"@
        + "| Child crate manifests | "@ + decimal(d.facade.crate_manifest_paths@.len()) + " |\n"@
        + "\n"@
}

/// Appends the section on the detected facade shape.
pub fn write_detected_facade_shape(markdown: &mut String, d: &FacadeDiagnostics)
    ensures
        final(markdown)@ == old(markdown)@ + shape_text(*d),
{
    let facade = &d.facade;
    let mut s = String::from_str("## Facade Shape\n\n");
    push_str(&mut s, "| Check | Status |\n");
    push_str(&mut s, "|---|---:|\n");
    push_str(&mut s, "| `.git` | ");
    push_str(&mut s, yes_no(facade.has_git()));
    push_str(&mut s, " |\n");
    push_str(&mut s, "| `Cargo.toml` | ");
    push_str(&mut s, yes_no(facade.has_manifest()));
    push_str(&mut s, " |\n");
    push_str(&mut s, "| `crates/` | ");
    push_str(&mut s, yes_no(facade.has_crates_dir()));
    push_str(&mut s, " |\n");
    push_str(&mut s, "| Child crate manifests | ");
    push_decimal(&mut s, facade.crate_count());
    push_str(&mut s, " |\n");
    push_str(&mut s, "\n");
    push_str(markdown, s.as_str());
}

/// How many checks of `s` are (not) required, counting only present ones
/// where `present_only`.
pub open spec fn count_checks(s: Seq<RepositorySurfaceCheck>, required: bool, present_only: bool) -> nat
    decreases s.len(),
{
    if s.len() == 0 {
        0
    } else {
        count_checks(s.drop_last(), required, present_only) + if s.last().required == required && (!present_only
            || s.last().present) {
            1nat
        } else {
            0nat
        }
    }
}

proof fn lemma_count_checks_bound(s: Seq<RepositorySurfaceCheck>, required: bool, present_only: bool)
    ensures
        count_checks(s, required, present_only) <= s.len(),
    decreases s.len(),
{
    if s.len() > 0 {
        lemma_count_checks_bound(s.drop_last(), required, present_only);
    }
}

/// The number of checks that are (not) required, only the present ones
/// where `present_only`.
pub fn checks_count(s: &Vec<RepositorySurfaceCheck>, required: bool, present_only: bool) -> (n: usize)
    ensures
        n == count_checks(s@, required, present_only),
{
    let mut n: usize = 0;
    let mut i: usize = 0;
    while i < s.len()
        invariant
            i <= s.len(),
            n == count_checks(s@.take(i as int), required, present_only),
        decreases s.len() - i,
    {
        proof {
            assert(s@.take(i + 1).drop_last() =~= s@.take(i as int));
            lemma_count_checks_bound(s@.take(i as int), required, present_only);
        }
        if s[i].required == required && (!present_only || s[i].present) {
            n = n + 1;
        }
        i = i + 1;
    }
    assert(s@.take(i as int) =~= s@);
    n
}

/// A `present/total` fraction.
pub open spec fn fraction(present: nat, total: nat) -> Seq<char> {
    decimal(present) + "/"@ + decimal(total)
}

/// The section on the repository surface.
pub open spec fn repository_surface_text(d: FacadeDiagnostics) -> Seq<char> {
    let r = d.repository;
    "## Repository Surface\n\n"@
        + "- Status: **"@ + surface_status_label(
        if crate::facade_surface::any_missing(r.files@) || crate::facade_surface::any_missing(r.directories@) {
            SurfaceStatus::Warning
        } else {
            SurfaceStatus::Complete
        },
    ) + "**\n"@
        + "- Required files: `"@ + fraction(count_checks(r.files@, true, true), count_checks(r.files@, true, false)) + "`\n"@
        + "- Optional files: `"@ + fraction(count_checks(r.files@, false, true), count_checks(r.files@, false, false)) + "`\n"@
        + "- Required directories: `"@ + fraction(count_checks(r.directories@, true, true), count_checks(r.directories@, true, false))
        + "`\n"@
        + "- Optional directories: `"@ + fraction(count_checks(r.directories@, false, true), count_checks(r.directories@, false, false))
        + "`\n\n"@
}

fn push_fraction(s: &mut String, present: usize, total: usize)
    ensures
        final(s)@ == old(s)@ + fraction(present as nat, total as nat),
{
    push_decimal(s, present);
    push_str(s, "/");
    push_decimal(s, total);
    assert(s@ =~= old(s)@ + fraction(present as nat, total as nat));
}

/// Appends the section on the repository surface.
pub fn write_repository_surface(markdown: &mut String, d: &FacadeDiagnostics)
    ensures
        final(markdown)@ == old(markdown)@ + repository_surface_text(*d),
{
    let r = &d.repository;
    let mut s = String::from_str("## Repository Surface\n\n");
    push_str(&mut s, "- Status: **");
    push_str(&mut s, r.status().as_str());
    push_str(&mut s, "**\n");
    push_str(&mut s, "- Required files: `");
    push_fraction(&mut s, checks_count(&r.files, true, true), checks_count(&r.files, true, false));
    push_str(&mut s, "`\n");
    push_str(&mut s, "- Optional files: `");
    push_fraction(&mut s, checks_count(&r.files, false, true), checks_count(&r.files, false, false));
    push_str(&mut s, "`\n");
    push_str(&mut s, "- Required directories: `");
    push_fraction(&mut s, checks_count(&r.directories, true, true), checks_count(&r.directories, true, false));
    push_str(&mut s, "`\n");
    push_str(&mut s, "- Optional directories: `");
    push_fraction(&mut s, checks_count(&r.directories, false, true), checks_count(&r.directories, false, false));
    push_str(&mut s, "`\n\n");
    push_str(markdown, s.as_str());
}

/// The row of one standard path check.
pub open spec fn check_row(c: RepositorySurfaceCheck) -> Seq<char> {
    "| "@ + surface_status_label(c.status) + " | "@ + yes_no_text(c.required) + " | "@ + yes_no_text(c.present) + " | `"@
        + c.path@ + "` | "@ + c.label@ + " |\n"@
}

/// The rows of standard path checks, in order.
pub open spec fn check_rows(s: Seq<RepositorySurfaceCheck>) -> Seq<char>
    decreases s.len(),
{
    if s.len() == 0 {
        seq![]
    } else {
        check_rows(s.drop_last()) + check_row(s.last())
    }
}

/// A table of standard path checks, followed by a blank line.
pub open spec fn checks_table(s: Seq<RepositorySurfaceCheck>) -> Seq<char> {
    "| Status | Required | Present | Path | Purpose |\n"@ + "|---|---:|---:|---|---|\n"@ + check_rows(s) + "\n"@
}

/// Appends the table of standard path checks.
pub fn write_repository_checks(markdown: &mut String, checks: &Vec<RepositorySurfaceCheck>)
    ensures
        final(markdown)@ == old(markdown)@ + checks_table(checks@),
{
    let mut s = String::from_str("| Status | Required | Present | Path | Purpose |\n");
    push_str(&mut s, "|---|---:|---:|---|---|\n");
    let ghost head = s@;
    let mut i: usize = 0;
    while i < checks.len()
        invariant
            i <= checks.len(),
            s@ == head + check_rows(checks@.take(i as int)),
        decreases checks.len() - i,
    {
        let c = &checks[i];
        let mut row = String::from_str("| ");
        push_str(&mut row, c.status.as_str());
        push_str(&mut row, " | ");
        push_str(&mut row, yes_no(c.required));
        push_str(&mut row, " | ");
        push_str(&mut row, yes_no(c.present));
        push_str(&mut row, " | `");
        push_str(&mut row, c.path);
        push_str(&mut row, "` | ");
        push_str(&mut row, c.label);
        push_str(&mut row, " |\n");
        let ghost before = s@;
        push_str(&mut s, row.as_str());
        proof {
            assert(checks@.take(i + 1).drop_last() =~= checks@.take(i as int));
            assert(s@ =~= head + (check_rows(checks@.take(i as int)) + check_row(*c)));
        }
        i = i + 1;
    }
    push_str(&mut s, "\n");
    assert(checks@.take(i as int) =~= checks@);
    push_str(markdown, s.as_str());
}

/// The section on the consistency of the standard files and directories.
pub open spec fn standard_files_text(d: FacadeDiagnostics) -> Seq<char> {
    "## Standard File Consistency\n\n"@ + "### Files\n\n"@ + checks_table(d.repository.files@) + "### Directories\n\n"@
        + checks_table(d.repository.directories@)
}

/// Appends the section on the consistency of the standard files.
pub fn write_standard_file_consistency(markdown: &mut String, d: &FacadeDiagnostics)
    ensures
        final(markdown)@ == old(markdown)@ + standard_files_text(*d),
{
    let mut s = String::from_str("## Standard File Consistency\n\n");
    push_str(&mut s, "### Files\n\n");
    write_repository_checks(&mut s, &d.repository.files);
    push_str(&mut s, "### Directories\n\n");
    write_repository_checks(&mut s, &d.repository.directories);
    push_str(markdown, s.as_str());
}

/// The row of one non-standard path that exists.
pub open spec fn non_standard_row(c: NonStandardPathCheck) -> Seq<char> {
    "| `"@ + c.path@ + "` | "@ + c.recommendation@ + " |\n"@
}

/// The rows of the non-standard paths that exist, in order.
pub open spec fn non_standard_rows(s: Seq<NonStandardPathCheck>) -> Seq<char>
    decreases s.len(),
{
    if s.len() == 0 {
        seq![]
    } else {
        non_standard_rows(s.drop_last()) + non_standard_row(s.last())
    }
}

/// The section on non-standard paths.
pub open spec fn non_standard_text(d: FacadeDiagnostics) -> Seq<char> {
    let checks = d.non_standard_paths.checks@;
    let present = present_checks_of(checks);
    let head = "## Non-standard Paths\n\n"@ + "- Status: **"@ + (if present.len() == 0 { "ok"@ } else { "warning"@ })
        + "**\n"@ + "- Present: `"@ + fraction(present.len(), checks.len()) + "`\n\n"@;
    if present.len() == 0 {
        head + "- No non-standard paths detected.\n\n"@
    } else {
        head + "| Path | Recommendation |\n"@ + "|---|---|\n"@ + non_standard_rows(present) + "\n"@
    }
}

/// Appends the section on non-standard paths.
pub fn write_non_standard_paths(markdown: &mut String, d: &FacadeDiagnostics)
    ensures
        final(markdown)@ == old(markdown)@ + non_standard_text(*d),
{
    let report = &d.non_standard_paths;
    let mut s = String::from_str("## Non-standard Paths\n\n");
    push_str(&mut s, "- Status: **");
    push_str(&mut s, report.status());
    push_str(&mut s, "**\n");
    push_str(&mut s, "- Present: `");
    push_fraction(&mut s, report.present_count(), report.total_count());
    push_str(&mut s, "`\n\n");
    let present = report.present_checks();
    if present.len() == 0 {
        push_str(&mut s, "- No non-standard paths detected.\n\n");
        push_str(markdown, s.as_str());
        return;
    }
    push_str(&mut s, "| Path | Recommendation |\n");
    push_str(&mut s, "|---|---|\n");
    let ghost head = s@;
    let mut i: usize = 0;
    while i < present.len()
        invariant
            i <= present.len(),
            s@ == head + non_standard_rows(present@.take(i as int)),
        decreases present.len() - i,
    {
        let c = &present[i];
        let mut row = String::from_str("| `");
        push_str(&mut row, c.path);
        push_str(&mut row, "` | ");
        push_str(&mut row, c.recommendation);
        push_str(&mut row, " |\n");
        push_str(&mut s, row.as_str());
        proof {
            assert(present@.take(i + 1).drop_last() =~= present@.take(i as int));
            assert(s@ =~= head + (non_standard_rows(present@.take(i as int)) + non_standard_row(*c)));
        }
        i = i + 1;
    }
    push_str(&mut s, "\n");
    assert(present@.take(i as int) =~= present@);
    push_str(markdown, s.as_str());
}

/// A section on a surface: its status, how many of its paths are present,
/// and their presence table.
pub open spec fn presence_section_text(title: Seq<char>, surface: Seq<PresenceCheck>) -> Seq<char> {
    title + "- Status: **"@ + presence_status(surface) + "**\n"@ + "- Present: `"@ + fraction(count_present(surface), surface.len())
        + "`\n\n"@ + presence_table(surface)
}

fn write_presence_section(markdown: &mut String, title: &str, surface: &Vec<PresenceCheck>)
    ensures
        final(markdown)@ == old(markdown)@ + presence_section_text(title@, surface@),
{
    let mut s = String::from_str(title);
    push_str(&mut s, "- Status: **");
    push_str(&mut s, crate::facade_surface::surface_status(surface));
    push_str(&mut s, "**\n");
    push_str(&mut s, "- Present: `");
    push_fraction(&mut s, crate::facade_surface::present_count(surface), surface.len());
    push_str(&mut s, "`\n\n");
    write_presence_table(&mut s, surface);
    push_str(markdown, s.as_str());
}

/// The section on the tooling configuration.
pub open spec fn tooling_text(d: FacadeDiagnostics) -> Seq<char> {
    presence_section_text("## Tooling Configuration\n\n"@, d.tooling.surface@)
}

/// Appends the section on the tooling configuration.
pub fn write_tooling_configuration(markdown: &mut String, d: &FacadeDiagnostics)
    ensures
        final(markdown)@ == old(markdown)@ + tooling_text(*d),
{
    write_presence_section(markdown, "## Tooling Configuration\n\n", &d.tooling.surface);
}

/// The section on the release surface.
pub open spec fn release_text(d: FacadeDiagnostics) -> Seq<char> {
    presence_section_text("## Release Surface\n\n"@, d.release.surface@)
}

/// Appends the section on the release surface.
pub fn write_release_surface(markdown: &mut String, d: &FacadeDiagnostics)
    ensures
        final(markdown)@ == old(markdown)@ + release_text(*d),
{
    write_presence_section(markdown, "## Release Surface\n\n", &d.release.surface);
}

/// The section on crate documentation consistency.
pub open spec fn crate_documentation_text() -> Seq<char> {
    "## Crate Documentation Consistency\n\n"@ + "- Deferred until facade diagnostics exposes documentation display rows.\n\n"@
}

/// Appends the section on crate documentation consistency.
pub fn write_crate_documentation_consistency(markdown: &mut String)
    ensures
        final(markdown)@ == old(markdown)@ + crate_documentation_text(),
{
    let mut s = String::from_str("## Crate Documentation Consistency\n\n");
    push_str(&mut s, "- Deferred until facade diagnostics exposes documentation display rows.\n\n");
    push_str(markdown, s.as_str());
}

/// The section on the documentation surface.
pub open spec fn documentation_surface_text() -> Seq<char> {
    "## Documentation Surface\n\n"@ + "- Deferred until facade diagnostics exposes documentation surface data.\n\n"@
}

/// Appends the section on the documentation surface.
pub fn write_documentation_surface(markdown: &mut String)
    ensures
        final(markdown)@ == old(markdown)@ + documentation_surface_text(),
{
    let mut s = String::from_str("## Documentation Surface\n\n");
    push_str(&mut s, "- Deferred until facade diagnostics exposes documentation surface data.\n\n");
    push_str(markdown, s.as_str());
}

/// The closing notes of a facade report.
pub open spec fn notes_text() -> Seq<char> {
    "## Notes\n\n"@ + "- This report is generated from the local filesystem.\n"@
        + "- A facade repository is expected to contain `.git`, `Cargo.toml`, and `crates/`.\n"@
        + "- Child crates are direct directories under `crates/` with their own `Cargo.toml`.\n"@
        + "- Diagnostics are shared by report, status, plan, and fix so all dev commands use the same issue source.\n"@
        + "\n"@
}

/// Appends the closing notes.
pub fn write_notes(markdown: &mut String)
    ensures
        final(markdown)@ == old(markdown)@ + notes_text(),
{
    let mut s = String::from_str("## Notes\n\n");
    push_str(&mut s, "- This report is generated from the local filesystem.\n");
    push_str(&mut s, "- A facade repository is expected to contain `.git`, `Cargo.toml`, and `crates/`.\n");
    push_str(&mut s, "- Child crates are direct directories under `crates/` with their own `Cargo.toml`.\n");
    push_str(&mut s, "- Diagnostics are shared by report, status, plan, and fix so all dev commands use the same issue source.\n");
    push_str(&mut s, "\n");
    push_str(markdown, s.as_str());
}

/// The rows of a surface's checks as `| yes | path | present |`, in order.
pub open spec fn required_surface_rows(s: Seq<PresenceCheck>) -> Seq<char>
    decreases s.len(),
{
    if s.len() == 0 {
        seq![]
    } else {
        required_surface_rows(s.drop_last()) + "| yes | `"@ + s.last().path@ + "` | "@ + yes_no_text(s.last().present) + " |\n"@
    }
}

/// The list of missing paths, each as a nested item.
pub open spec fn missing_path_items(s: Seq<Seq<char>>) -> Seq<char>
    decreases s.len(),
{
    if s.len() == 0 {
        seq![]
    } else {
        missing_path_items(s.drop_last()) + "  - `"@ + s.last() + "`\n"@
    }
}

/// The list of missing required CI/CD paths, where there are any.
pub open spec fn missing_paths_text(missing: Seq<Seq<char>>) -> Seq<char> {
    if missing.len() == 0 {
        seq![]
    } else {
        "- Missing required CI/CD files:\n"@ + missing_path_items(missing) + "\n"@
    }
}

/// The table of the required GitHub CI/CD surface.
pub open spec fn github_surface_text(checks: Seq<PresenceCheck>) -> Seq<char> {
    "### GitHub CI/CD Surface\n\n"@ + "| Required | Surface | Present |\n"@ + "|---:|---|---:|\n"@
        + required_surface_rows(checks) + "\n"@
}

/// The table of the required GitHub workflows.
pub open spec fn workflows_text(checks: Seq<PresenceCheck>) -> Seq<char> {
    "### Required GitHub Workflows\n\n"@ + "| Workflow | Present |\n"@ + "|---|---:|\n"@
        + crate::markdown::presence_rows(checks) + "\n"@
}

/// The section on the CI/CD surface.
pub open spec fn ci_cd_text(d: FacadeDiagnostics) -> Seq<char> {
    let github = d.github_workflows;
    let missing = absent_paths(github.required_surface@);
    "## CI/CD Surface\n\n"@
        + "- Status: **"@ + presence_status(github.required_surface@) + "**\n"@
        + "- Required GitHub CI/CD surface: `"@ + fraction(count_present(github.required_surface@), github.required_surface@.len())
        + "`\n"@
        + "- Required GitHub workflows: `"@ + fraction(count_present(github.required_workflows@), github.required_workflows@.len())
        + "`\n"@
        + "- GitLab CI surface: `"@ + fraction(count_present(d.gitlab.surface@), d.gitlab.surface@.len()) + "`\n"@
        + "- Release CI/CD surface: `"@ + fraction(count_present(d.release.ci_surface@), d.release.ci_surface@.len()) + "`\n\n"@
        + missing_paths_text(missing) + github_surface_text(github.required_surface@)
        + workflows_text(github.required_workflows@)
        + "### GitLab CI Surface\n\n"@ + presence_table(d.gitlab.surface@)
        + "### Release CI/CD Surface\n\n"@ + presence_table(d.release.ci_surface@)
}

fn write_missing_github_paths(markdown: &mut String, missing: &Vec<String>)
    ensures
        final(markdown)@ == old(markdown)@ + missing_paths_text(views(missing@)),
{
    if missing.len() == 0 {
        assert(old(markdown)@ + Seq::<char>::empty() =~= old(markdown)@);
        return;
    }
    let mut s = String::from_str("- Missing required CI/CD files:\n");
    let ghost head = s@;
    let mut i: usize = 0;
    while i < missing.len()
        invariant
            i <= missing.len(),
            s@ == head + missing_path_items(views(missing@.take(i as int))),
        decreases missing.len() - i,
    {
        let mut item = String::from_str("  - `");
        push_str(&mut item, missing[i].as_str());
        push_str(&mut item, "`\n");
        push_str(&mut s, item.as_str());
        proof {
            assert(views(missing@.take(i + 1)).drop_last() =~= views(missing@.take(i as int)));
            assert(views(missing@.take(i + 1)).last() == missing@[i as int]@);
            assert(s@ =~= head + (missing_path_items(views(missing@.take(i as int))) + ("  - `"@ + missing@[i as int]@ + "`\n"@)));
        }
        i = i + 1;
    }
    push_str(&mut s, "\n");
    assert(missing@.take(i as int) =~= missing@);
    push_str(markdown, s.as_str());
}

fn write_github_surface(markdown: &mut String, checks: &Vec<PresenceCheck>)
    ensures
        final(markdown)@ == old(markdown)@ + github_surface_text(checks@),
{
    let mut s = String::from_str("### GitHub CI/CD Surface\n\n");
    push_str(&mut s, "| Required | Surface | Present |\n");
    push_str(&mut s, "|---:|---|---:|\n");
    let ghost head = s@;
    let mut i: usize = 0;
    while i < checks.len()
        invariant
            i <= checks.len(),
            s@ == head + required_surface_rows(checks@.take(i as int)),
        decreases checks.len() - i,
    {
        let mut row = String::from_str("| yes | `");
        push_str(&mut row, checks[i].path.as_str());
        push_str(&mut row, "` | ");
        push_str(&mut row, yes_no(checks[i].present));
        push_str(&mut row, " |\n");
        push_str(&mut s, row.as_str());
        proof {
            assert(checks@.take(i + 1).drop_last() =~= checks@.take(i as int));
            assert(s@ =~= head + (required_surface_rows(checks@.take(i as int)) + ("| yes | `"@ + checks@[i as int].path@ + "` | "@
                + yes_no_text(checks@[i as int].present) + " |\n"@)));
        }
        i = i + 1;
    }
    push_str(&mut s, "\n");
    assert(checks@.take(i as int) =~= checks@);
    push_str(markdown, s.as_str());
}

fn write_required_github_workflows(markdown: &mut String, checks: &Vec<PresenceCheck>)
    ensures
        final(markdown)@ == old(markdown)@ + workflows_text(checks@),
{
    let mut s = String::from_str("### Required GitHub Workflows\n\n");
    push_str(&mut s, "| Workflow | Present |\n");
    push_str(&mut s, "|---|---:|\n");
    let ghost head = s@;
    let mut i: usize = 0;
    while i < checks.len()
        invariant
            i <= checks.len(),
            s@ == head + crate::markdown::presence_rows(checks@.take(i as int)),
        decreases checks.len() - i,
    {
        let mut row = String::from_str("| `");
        push_str(&mut row, checks[i].path.as_str());
        push_str(&mut row, "` | ");
        push_str(&mut row, yes_no(checks[i].present));
        push_str(&mut row, " |\n");
        push_str(&mut s, row.as_str());
        proof {
            assert(checks@.take(i + 1).drop_last() =~= checks@.take(i as int));
            assert(s@ =~= head + (crate::markdown::presence_rows(checks@.take(i as int)) + crate::markdown::presence_row(checks@[i as int])));
        }
        i = i + 1;
    }
    push_str(&mut s, "\n");
    assert(checks@.take(i as int) =~= checks@);
    push_str(markdown, s.as_str());
}

/// Appends the section on the CI/CD surface.
pub fn write_ci_cd_surface(markdown: &mut String, d: &FacadeDiagnostics)
    ensures
        final(markdown)@ == old(markdown)@ + ci_cd_text(*d),
{
    let github = &d.github_workflows;
    let mut s = String::from_str("## CI/CD Surface\n\n");
    push_str(&mut s, "- Status: **");
    push_str(&mut s, github.status());
    push_str(&mut s, "**\n");
    push_str(&mut s, "- Required GitHub CI/CD surface: `");
    push_fraction(&mut s, crate::facade_surface::present_count(&github.required_surface), github.required_surface.len());
    push_str(&mut s, "`\n");
    push_str(&mut s, "- Required GitHub workflows: `");
    push_fraction(&mut s, crate::facade_surface::present_count(&github.required_workflows), github.required_workflows.len());
    push_str(&mut s, "`\n");
    push_str(&mut s, "- GitLab CI surface: `");
    push_fraction(&mut s, d.gitlab.present_count(), d.gitlab.total_count());
    push_str(&mut s, "`\n");
    push_str(&mut s, "- Release CI/CD surface: `");
    push_fraction(&mut s, crate::facade_surface::present_count(&d.release.ci_surface), d.release.ci_surface.len());
    push_str(&mut s, "`\n\n");
    let missing = github.missing_required_paths();
    write_missing_github_paths(&mut s, &missing);
    write_github_surface(&mut s, &github.required_surface);
    write_required_github_workflows(&mut s, &github.required_workflows);
    push_str(&mut s, "### GitLab CI Surface\n\n");
    write_presence_table(&mut s, &d.gitlab.surface);
    push_str(&mut s, "### Release CI/CD Surface\n\n");
    write_presence_table(&mut s, &d.release.ci_surface);
    push_str(markdown, s.as_str());
}

/// The manifest status and issue count shown for a crate whose manifest has
/// the path `rel` relative to the facade root: `unknown` and 0 where no
/// manifest report has that path.
pub open spec fn crate_manifest_status(d: FacadeDiagnostics, rel: Seq<char>) -> (Seq<char>, nat) {
    match crate::facade_diagnostics::report_at(d.manifest.manifests@, rel) {
        Some(m) => (
            crate::manifest_model::count_status(
                crate::manifest_model::count_severity(crate::manifest_model::issue_views(m.issues@),
                    crate::manifest_model::ManifestIssueSeverity::Error),
                crate::manifest_model::count_severity(crate::manifest_model::issue_views(m.issues@),
                    crate::manifest_model::ManifestIssueSeverity::Warning),
            ),
            m.issues@.len(),
        ),
        None => ("unknown"@, 0),
    }
}

/// The row of one crate in the child crate table.
pub open spec fn child_row_text(d: FacadeDiagnostics, c: crate::facade_model::FacadeCrateInfo) -> Seq<char> {
    let rel = crate::facade_model::relative_to(d.facade.root@, c.manifest_path@);
    let st = crate_manifest_status(d, rel);
    "| `"@ + crate::facade_issue::crate_kind_label(c.kind) + "` | `"@ + c.name@ + "` | `"@ + rel + "` | "@
        + yes_no_text(c.found.readme_is_file) + " | "@ + yes_no_text(c.found.lib_is_file) + " | "@
        + yes_no_text(c.found.prelude_is_file) + " | "@
        + status_label(
        if crate::facade_model::docs_complete(c.kind, c.found) {
            crate::facade_issue::FacadeStatus::Healthy
        } else {
            crate::facade_issue::FacadeStatus::Warning
        },
    ) + " | "@ + st.0 + " | "@ + decimal(st.1) + " | "@ + crate::facade_model::doc_notes_text(c.kind, c.found) + " |\n"@
}

/// The rows of the child crate table, in order.
pub open spec fn child_rows_text(d: FacadeDiagnostics, cs: Seq<crate::facade_model::FacadeCrateInfo>) -> Seq<char>
    decreases cs.len(),
{
    if cs.len() == 0 {
        seq![]
    } else {
        child_rows_text(d, cs.drop_last()) + child_row_text(d, cs.last())
    }
}

/// The section on the child crates.
pub open spec fn child_crates_text(d: FacadeDiagnostics) -> Seq<char> {
    if d.crates@.len() == 0 {
        "## Child Crates\n\n"@ + "- No child crate manifests found.\n\n"@
    } else {
        "## Child Crates\n\n"@
            + "| Kind | Crate | Manifest | README | lib.rs | prelude.rs | Docs | Manifest | Issues | Notes |\n"@
            + "|---|---|---|---:|---:|---:|---|---|---:|---|\n"@ + child_rows_text(d, d.crates@) + "\n"@
    }
}

/// Appends the section on the child crates.
pub fn write_child_crates(markdown: &mut String, d: &FacadeDiagnostics)
    ensures
        final(markdown)@ == old(markdown)@ + child_crates_text(*d),
{
    let mut s = String::from_str("## Child Crates\n\n");
    let rows = d.child_crate_rows();
    if rows.len() == 0 {
        push_str(&mut s, "- No child crate manifests found.\n\n");
        push_str(markdown, s.as_str());
        return;
    }
    push_str(&mut s, "| Kind | Crate | Manifest | README | lib.rs | prelude.rs | Docs | Manifest | Issues | Notes |\n");
    push_str(&mut s, "|---|---|---|---:|---:|---:|---|---|---:|---|\n");
    let ghost head = s@;
    let mut i: usize = 0;
    while i < rows.len()
        invariant
            i <= rows.len(),
            rows@.len() == d.crates@.len(),
            forall|k: int| 0 <= k < rows@.len() ==> {
                let c = d.crates@[k];
                let rel = crate::facade_model::relative_to(d.facade.root@, c.manifest_path@);
                &&& (#[trigger] rows@[k]).kind == c.kind
                &&& rows@[k].crate_name@ == c.name@
                &&& rows@[k].manifest_path@ == rel
                &&& rows@[k].readme_present == c.found.readme_is_file
                &&& rows@[k].lib_present == c.found.lib_is_file
                &&& rows@[k].prelude_present == c.found.prelude_is_file
                &&& rows@[k].documentation_notes@ == crate::facade_model::doc_notes_text(c.kind, c.found)
                &&& rows@[k].documentation_status == if crate::facade_model::docs_complete(c.kind, c.found) {
                    crate::facade_issue::FacadeStatus::Healthy
                } else {
                    crate::facade_issue::FacadeStatus::Warning
                }
                &&& rows@[k].manifest_status@ == crate_manifest_status(*d, rel).0
                &&& rows@[k].manifest_issue_count == crate_manifest_status(*d, rel).1
            },
            s@ == head + child_rows_text(*d, d.crates@.take(i as int)),
        decreases rows.len() - i,
    {
        let row = &rows[i];
        let mut line = String::from_str("| `");
        push_str(&mut line, row.kind.as_str());
        push_str(&mut line, "` | `");
        push_str(&mut line, row.crate_name.as_str());
        push_str(&mut line, "` | `");
        push_str(&mut line, row.manifest_path.as_str());
        push_str(&mut line, "` | ");
        push_str(&mut line, yes_no(row.readme_present));
        push_str(&mut line, " | ");
        push_str(&mut line, yes_no(row.lib_present));
        push_str(&mut line, " | ");
        push_str(&mut line, yes_no(row.prelude_present));
        push_str(&mut line, " | ");
        push_str(&mut line, row.documentation_status.as_str());
        push_str(&mut line, " | ");
        push_str(&mut line, row.manifest_status);
        push_str(&mut line, " | ");
        push_decimal(&mut line, row.manifest_issue_count);
        push_str(&mut line, " | ");
        push_str(&mut line, row.documentation_notes.as_str());
        push_str(&mut line, " |\n");
        assert(line@ == child_row_text(*d, d.crates@[i as int]));
        push_str(&mut s, line.as_str());
        proof {
            assert(d.crates@.take(i + 1).drop_last() =~= d.crates@.take(i as int));
            assert(s@ =~= head + (child_rows_text(*d, d.crates@.take(i as int)) + child_row_text(*d, d.crates@[i as int])));
        }
        i = i + 1;
    }
    push_str(&mut s, "\n");
    assert(d.crates@.take(i as int) =~= d.crates@);
    push_str(markdown, s.as_str());
}

} // verus!
