//! The standard `.github` policy of a RustUse facade repository: the files
//! it must hold and their expected contents.

use vstd::prelude::*;

use crate::github_model::{GithubFileKind, RequiredGithubFile};

verus! {

/// Path of the Dependabot configuration.
pub const DEPENDABOT_RELATIVE_PATH: &'static str = ".github/dependabot.yml";

/// Path of the funding metadata.
pub const FUNDING_RELATIVE_PATH: &'static str = ".github/FUNDING.yml";

/// Path of the issue template directory.
pub const ISSUE_TEMPLATE_DIR_RELATIVE_PATH: &'static str = ".github/ISSUE_TEMPLATE";

/// Path of the pull request template.
pub const PULL_REQUEST_TEMPLATE_RELATIVE_PATH: &'static str = ".github/pull_request_template.md";

/// Path of the CI workflow.
pub const CI_WORKFLOW_RELATIVE_PATH: &'static str = ".github/workflows/ci.yml";

/// Path of the release-plz workflow.
pub const RELEASE_PLZ_WORKFLOW_RELATIVE_PATH: &'static str = ".github/workflows/release-plz.yml";

/// Path of the security workflow.
pub const SECURITY_WORKFLOW_RELATIVE_PATH: &'static str = ".github/workflows/security.yml";

/// Path of the bug report issue template.
pub const BUG_REPORT_TEMPLATE_RELATIVE_PATH: &'static str = ".github/ISSUE_TEMPLATE/bug_report.yml";

/// Path of the feature request issue template.
pub const FEATURE_REQUEST_TEMPLATE_RELATIVE_PATH: &'static str = ".github/ISSUE_TEMPLATE/feature_request.yml";

/// The standard CI workflow.
pub const CI_WORKFLOW: &'static str = r#"name: CI

on:
  pull_request:
  push:
    branches:
      - main

permissions:
  contents: read

env:
  CARGO_TERM_COLOR: always

jobs:
  ci:
    name: CI
    runs-on: ubuntu-latest

    steps:
      - name: Checkout
        uses: actions/checkout@v4

      - name: Install Rust
        uses: dtolnay/rust-toolchain@stable
        with:
          components: clippy, rustfmt

      - name: Cache Cargo
        uses: Swatinem/rust-cache@v2

      - name: Format
        run: cargo fmt --all --check

      - name: Check
        run: cargo check --workspace --all-targets --all-features

      - name: Clippy
        run: cargo clippy --workspace --all-targets --all-features -- -D warnings

      - name: Test
        run: cargo test --workspace --all-features

      - name: Docs
        run: cargo doc --workspace --all-features --no-deps
"#;

/// The standard release-plz workflow.
pub const RELEASE_PLZ_WORKFLOW: &'static str = r#"name: Release

on:
  push:
    branches:
      - main

permissions:
  contents: write
  pull-requests: write

concurrency:
  group: release-plz-${{ github.ref }}
  cancel-in-progress: false

jobs:
  release-plz:
    name: Release
    runs-on: ubuntu-latest

    steps:
      - name: Checkout
        uses: actions/checkout@v4
        with:
          fetch-depth: 0

      - name: Install Rust
        uses: dtolnay/rust-toolchain@stable

      - name: Cache Cargo
        uses: Swatinem/rust-cache@v2

      - name: Release
        uses: release-plz/action@v0.5
        env:
          GITHUB_TOKEN: ${{ secrets.GITHUB_TOKEN }}
          CARGO_REGISTRY_TOKEN: ${{ secrets.CARGO_REGISTRY_TOKEN }}
"#;

/// The standard security workflow.
pub const SECURITY_WORKFLOW: &'static str = r#"name: Security

on:
  pull_request:
  push:
    branches:
      - main
  schedule:
    - cron: "0 8 * * 1"

permissions:
  contents: read

env:
  CARGO_TERM_COLOR: always

jobs:
  cargo-deny:
    name: cargo-deny
    runs-on: ubuntu-latest

    steps:
      - name: Checkout
        uses: actions/checkout@v4

      - name: Install Rust
        uses: dtolnay/rust-toolchain@stable

      - name: Cache Cargo
        uses: Swatinem/rust-cache@v2

      - name: Install cargo-deny
        run: cargo install cargo-deny --locked

      - name: Run cargo-deny
        run: cargo deny check
"#;

/// The standard Dependabot configuration.
pub const DEPENDABOT: &'static str = r#"version: 2
updates:
  - package-ecosystem: cargo
    directory: /
    schedule:
      interval: weekly
    open-pull-requests-limit: 10

  - package-ecosystem: github-actions
    directory: /
    schedule:
      interval: weekly
    open-pull-requests-limit: 10
"#;

/// The standard funding metadata: empty until a funding surface is chosen.
pub const FUNDING: &'static str = r#"# github: RustUse
"#;

/// The standard bug report issue template.
pub const BUG_REPORT_TEMPLATE: &'static str = r#"name: Bug report
description: Report a reproducible problem.
title: "bug: "
labels:
  - bug
body:
  - type: markdown
    attributes:
      value: |
        Thanks for reporting a RustUse issue. Please include a minimal reproduction when possible.

  - type: textarea
    id: description
    attributes:
      label: Description
      description: What happened?
    validations:
      required: true

  - type: textarea
    id: reproduction
    attributes:
      label: Reproduction
      description: Provide the smallest example that reproduces the issue.
      render: rust
    validations:
      required: false

  - type: input
    id: rust-version
    attributes:
      label: Rust version
      placeholder: rustc 1.95.0
    validations:
      required: false

  - type: input
    id: crate-version
    attributes:
      label: Crate version
      placeholder: use-example 0.1.0
    validations:
      required: false
"#;

/// The standard feature request issue template.
pub const FEATURE_REQUEST_TEMPLATE: &'static str = r#"name: Feature request
description: Suggest an improvement or new primitive.
title: "feat: "
labels:
  - enhancement
body:
  - type: markdown
    attributes:
      value: |
        RustUse favors small, composable, well-documented primitives.

  - type: textarea
    id: problem
    attributes:
      label: Problem
      description: What problem should this solve?
    validations:
      required: true

  - type: textarea
    id: proposal
    attributes:
      label: Proposal
      description: What API, crate, or behavior do you suggest?
    validations:
      required: true

  - type: textarea
    id: alternatives
    attributes:
      label: Alternatives
      description: What alternatives did you consider?
    validations:
      required: false
"#;

/// The standard pull request template.
pub const PULL_REQUEST_TEMPLATE: &'static str = r#"## Summary

Describe the change.

## Checklist

- [ ] Tests were added or updated when useful.
- [ ] Documentation was added or updated when useful.
- [ ] Public API changes are intentional.
- [ ] `cargo fmt --all --check` passes.
- [ ] `cargo clippy --workspace --all-targets --all-features -- -D warnings` passes.
- [ ] `cargo test --workspace --all-features` passes.
"#;

/// The `.github` policy of a facade repository.
#[derive(Clone, Debug)]
pub struct GithubPolicy {
    /// The required template-backed files.
    pub required_files: Vec<RequiredGithubFile>,
    /// Whether `.github/ISSUE_TEMPLATE/` must exist.
    pub requires_issue_template_directory: bool,
}

/// Whether `f` is the required file at `path` with `contents` and `kind`.
pub open spec fn is_required_file(f: RequiredGithubFile, path: &str, contents: &str, kind: GithubFileKind) -> bool {
    f.relative_path@ == path@ && f.contents@ == contents@ && f.kind == kind
}

/// The standard policy: the three workflows, the Dependabot configuration,
/// the two issue templates and the pull request template, in that order,
/// and the issue template directory.
pub fn standard_github_policy() -> (policy: GithubPolicy)
    ensures
        policy.requires_issue_template_directory,
        policy.required_files@.len() == 7,
        is_required_file(policy.required_files@[0], CI_WORKFLOW_RELATIVE_PATH, CI_WORKFLOW, GithubFileKind::Workflow),
        is_required_file(policy.required_files@[1], RELEASE_PLZ_WORKFLOW_RELATIVE_PATH, RELEASE_PLZ_WORKFLOW, GithubFileKind::Workflow),
        is_required_file(policy.required_files@[2], SECURITY_WORKFLOW_RELATIVE_PATH, SECURITY_WORKFLOW, GithubFileKind::Workflow),
        is_required_file(policy.required_files@[3], DEPENDABOT_RELATIVE_PATH, DEPENDABOT, GithubFileKind::Dependabot),
        is_required_file(policy.required_files@[4], BUG_REPORT_TEMPLATE_RELATIVE_PATH, BUG_REPORT_TEMPLATE, GithubFileKind::IssueTemplate),
        is_required_file(policy.required_files@[5], FEATURE_REQUEST_TEMPLATE_RELATIVE_PATH, FEATURE_REQUEST_TEMPLATE, GithubFileKind::IssueTemplate),
        is_required_file(policy.required_files@[6], PULL_REQUEST_TEMPLATE_RELATIVE_PATH, PULL_REQUEST_TEMPLATE, GithubFileKind::PullRequestTemplate),
{
    let mut files: Vec<RequiredGithubFile> = Vec::new();
    files.push(RequiredGithubFile { relative_path: CI_WORKFLOW_RELATIVE_PATH, contents: CI_WORKFLOW, kind: GithubFileKind::Workflow });
    files.push(RequiredGithubFile { relative_path: RELEASE_PLZ_WORKFLOW_RELATIVE_PATH, contents: RELEASE_PLZ_WORKFLOW, kind: GithubFileKind::Workflow });
    files.push(RequiredGithubFile { relative_path: SECURITY_WORKFLOW_RELATIVE_PATH, contents: SECURITY_WORKFLOW, kind: GithubFileKind::Workflow });
    files.push(RequiredGithubFile { relative_path: DEPENDABOT_RELATIVE_PATH, contents: DEPENDABOT, kind: GithubFileKind::Dependabot });
    files.push(RequiredGithubFile { relative_path: BUG_REPORT_TEMPLATE_RELATIVE_PATH, contents: BUG_REPORT_TEMPLATE, kind: GithubFileKind::IssueTemplate });
    files.push(RequiredGithubFile { relative_path: FEATURE_REQUEST_TEMPLATE_RELATIVE_PATH, contents: FEATURE_REQUEST_TEMPLATE, kind: GithubFileKind::IssueTemplate });
    files.push(RequiredGithubFile { relative_path: PULL_REQUEST_TEMPLATE_RELATIVE_PATH, contents: PULL_REQUEST_TEMPLATE, kind: GithubFileKind::PullRequestTemplate });
    GithubPolicy { required_files: files, requires_issue_template_directory: true }
}

} // verus!
