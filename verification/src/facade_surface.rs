//! The repository surface of a facade: the standard files and directories it
//! should hold, the paths it should not hold, and the presence checks of its
//! documentation, GitLab, release, tooling and GitHub CI/CD surfaces.
//!
//! Whether a path exists is observed by the caller; these functions turn the
//! observations into checks and reports.

use vstd::prelude::*;

verus! {

/// A standard path and its description.
pub type StandardPath = (&'static str, &'static str);

/// Whether a repository surface is complete.
#[derive(Clone, Copy, Debug, PartialEq, Eq, Structural, Hash)]
pub enum SurfaceStatus {
    /// Every required path is present.
    Complete,
    /// A required path is missing.
    Warning,
}

/// The label of a surface status.
pub open spec fn surface_status_label(s: SurfaceStatus) -> Seq<char> {
    match s {
        SurfaceStatus::Complete => "ok"@,
        SurfaceStatus::Warning => "warning"@,
    }
}

impl SurfaceStatus {
    /// The label of the status.
    pub fn as_str(self) -> (label: &'static str)
        ensures
            label@ == surface_status_label(self),
    {
        match self {
            SurfaceStatus::Complete => "ok",
            SurfaceStatus::Warning => "warning",
        }
    }
}

/// The check of one standard path.
#[derive(Clone, Copy, Debug)]
pub struct RepositorySurfaceCheck {
    pub path: &'static str,
    pub label: &'static str,
    pub required: bool,
    pub present: bool,
    pub status: SurfaceStatus,
}

/// The standard paths of a kind of repository.
#[derive(Clone, Debug)]
pub struct SurfaceProfile {
    pub required_files: Vec<StandardPath>,
    pub optional_files: Vec<StandardPath>,
    pub required_directories: Vec<StandardPath>,
    pub optional_directories: Vec<StandardPath>,
}

/// The checks of a repository's standard files and directories.
#[derive(Clone, Debug)]
pub struct RepositorySurfaceReport {
    pub files: Vec<RepositorySurfaceCheck>,
    pub directories: Vec<RepositorySurfaceCheck>,
}

/// Whether a check is of a required path that is missing.
pub open spec fn missing_required(c: RepositorySurfaceCheck) -> bool {
    c.required && !c.present
}

/// Whether some check of `s` is of a missing required path.
pub open spec fn any_missing(s: Seq<RepositorySurfaceCheck>) -> bool {
    exists|i: int| 0 <= i < s.len() && missing_required(#[trigger] s[i])
}

/// The checks of `s` that are of missing required paths, in order.
pub open spec fn missing_checks(s: Seq<RepositorySurfaceCheck>) -> Seq<RepositorySurfaceCheck>
    decreases s.len(),
{
    if s.len() == 0 {
        seq![]
    } else {
        missing_checks(s.drop_last()) + if missing_required(s.last()) {
            seq![s.last()]
        } else {
            seq![]
        }
    }
}

fn has_missing(s: &Vec<RepositorySurfaceCheck>) -> (r: bool)
    ensures
        r == any_missing(s@),
{
    let mut i: usize = 0;
    while i < s.len()
        invariant
            i <= s.len(),
            forall|k: int| 0 <= k < i ==> !missing_required(#[trigger] s@[k]),
        decreases s.len() - i,
    {
        if s[i].required && !s[i].present {
            assert(missing_required(s@[i as int]));
            return true;
        }
        i = i + 1;
    }
    false
}

fn collect_missing(s: &Vec<RepositorySurfaceCheck>) -> (r: Vec<RepositorySurfaceCheck>)
    ensures
        r@ == missing_checks(s@),
{
    let mut r: Vec<RepositorySurfaceCheck> = Vec::new();
    let mut i: usize = 0;
    while i < s.len()
        invariant
            i <= s.len(),
            r@ == missing_checks(s@.take(i as int)),
        decreases s.len() - i,
    {
        assert(s@.take(i + 1).drop_last() =~= s@.take(i as int));
        if s[i].required && !s[i].present {
            r.push(s[i]);
        }
        assert(r@ =~= missing_checks(s@.take(i + 1)));
        i = i + 1;
    }
    assert(s@.take(i as int) =~= s@);
    r
}

impl RepositorySurfaceReport {
    /// `Warning` where a required file or directory is missing.
    pub fn status(&self) -> (s: SurfaceStatus)
        ensures
            s == if any_missing(self.files@) || any_missing(self.directories@) {
                SurfaceStatus::Warning
            } else {
                SurfaceStatus::Complete
            },
    {
        if has_missing(&self.files) || has_missing(&self.directories) {
            SurfaceStatus::Warning
        } else {
            SurfaceStatus::Complete
        }
    }

    /// The checks of the missing required files, in order.
    pub fn missing_required_files(&self) -> (r: Vec<RepositorySurfaceCheck>)
        ensures
            r@ == missing_checks(self.files@),
    {
        collect_missing(&self.files)
    }

    /// The checks of the missing required directories, in order.
    pub fn missing_required_directories(&self) -> (r: Vec<RepositorySurfaceCheck>)
        ensures
            r@ == missing_checks(self.directories@),
    {
        collect_missing(&self.directories)
    }
}

/// Whether `c` is the check of `p` with the given flags.
pub open spec fn check_of(c: RepositorySurfaceCheck, p: StandardPath, required: bool, present: bool) -> bool {
    &&& c.path@ == p.0@
    &&& c.label@ == p.1@
    &&& c.required == required
    &&& c.present == present
    &&& c.status == if required && !present {
        SurfaceStatus::Warning
    } else {
        SurfaceStatus::Complete
    }
}

/// Whether `checks` are the checks of `paths`, in order, given whether each
/// is present.
pub open spec fn checks_of(checks: Seq<RepositorySurfaceCheck>, paths: Seq<StandardPath>, required: bool, present: Seq<bool>) -> bool {
    &&& checks.len() == paths.len()
    &&& forall|i: int| 0 <= i < paths.len() ==> check_of(#[trigger] checks[i], paths[i], required, present[i])
}

/// The checks of `paths`, given whether each is present.
pub fn inspect_paths(paths: &Vec<StandardPath>, present: &Vec<bool>, required: bool) -> (checks: Vec<RepositorySurfaceCheck>)
    requires
        present@.len() == paths@.len(),
    ensures
        checks_of(checks@, paths@, required, present@),
{
    let mut checks: Vec<RepositorySurfaceCheck> = Vec::new();
    let mut i: usize = 0;
    while i < paths.len()
        invariant
            i <= paths.len(),
            present@.len() == paths@.len(),
            checks@.len() == i,
            forall|k: int| 0 <= k < i ==> check_of(#[trigger] checks@[k], paths@[k], required, present@[k]),
        decreases paths.len() - i,
    {
        let (path, label) = paths[i];
        let is_present = present[i];
        let status = if required && !is_present {
            SurfaceStatus::Warning
        } else {
            SurfaceStatus::Complete
        };
        checks.push(RepositorySurfaceCheck { path, label, required, present: is_present, status });
        i = i + 1;
    }
    checks
}

/// What was found at the paths of a profile, list by list.
#[derive(Clone, Debug)]
pub struct SurfacePresence {
    pub required_files: Vec<bool>,
    pub optional_files: Vec<bool>,
    pub required_directories: Vec<bool>,
    pub optional_directories: Vec<bool>,
}

/// Whether the observations cover each path of the profile once.
pub open spec fn presence_fits(profile: SurfaceProfile, found: SurfacePresence) -> bool {
    &&& found.required_files@.len() == profile.required_files@.len()
    &&& found.optional_files@.len() == profile.optional_files@.len()
    &&& found.required_directories@.len() == profile.required_directories@.len()
    &&& found.optional_directories@.len() == profile.optional_directories@.len()
}

/// The surface report of a repository: the required files then the optional
/// files, and the required directories then the optional directories.
pub fn inspect_repository_surface(profile: &SurfaceProfile, found: &SurfacePresence) -> (report: RepositorySurfaceReport)
    requires
        presence_fits(*profile, *found),
    ensures
        report.files@.len() == profile.required_files@.len() + profile.optional_files@.len(),
        checks_of(report.files@.take(profile.required_files@.len() as int), profile.required_files@, true, found.required_files@),
        checks_of(report.files@.skip(profile.required_files@.len() as int), profile.optional_files@, false, found.optional_files@),
        report.directories@.len() == profile.required_directories@.len() + profile.optional_directories@.len(),
        checks_of(report.directories@.take(profile.required_directories@.len() as int), profile.required_directories@, true, found.required_directories@),
        checks_of(report.directories@.skip(profile.required_directories@.len() as int), profile.optional_directories@, false, found.optional_directories@),
{
    let mut files = inspect_paths(&profile.required_files, &found.required_files, true);
    let mut optional_files = inspect_paths(&profile.optional_files, &found.optional_files, false);
    let ghost f1 = files@;
    let ghost f2 = optional_files@;
    files.append(&mut optional_files);
    assert(files@.take(f1.len() as int) =~= f1);
    assert(files@.skip(f1.len() as int) =~= f2);
    let mut directories = inspect_paths(&profile.required_directories, &found.required_directories, true);
    let mut optional_directories = inspect_paths(&profile.optional_directories, &found.optional_directories, false);
    let ghost d1 = directories@;
    let ghost d2 = optional_directories@;
    directories.append(&mut optional_directories);
    assert(directories@.take(d1.len() as int) =~= d1);
    assert(directories@.skip(d1.len() as int) =~= d2);
    RepositorySurfaceReport { files, directories }
}

/// The standard paths of a list, as text.
pub open spec fn standard_views(s: Seq<StandardPath>) -> Seq<(Seq<char>, Seq<char>)> {
    s.map_values(|p: StandardPath| (p.0@, p.1@))
}

/// The facade's required files.
pub open spec fn facade_required_files() -> Seq<(Seq<char>, Seq<char>)> {
    seq![
        (".clippy.toml"@, "Clippy configuration"@),
        (".editorconfig"@, "EditorConfig"@),
        (".gitattributes"@, "Git attributes"@),
        (".gitignore"@, "Git ignore rules"@),
        (".gitleaks.toml"@, "Gitleaks configuration"@),
        (".markdownlintignore"@, "Markdownlint ignore rules"@),
        (".rustfmt.toml"@, "Rustfmt configuration"@),
        (".taplo.toml"@, "Taplo configuration"@),
        (".trivyignore"@, "Trivy ignore rules"@),
        ("Cargo.lock"@, "Cargo lockfile"@),
        ("Cargo.toml"@, "Workspace manifest"@),
        ("CHANGELOG.md"@, "Changelog"@),
        ("CONTRIBUTING.md"@, "Contribution guide"@),
        ("deny.toml"@, "cargo-deny configuration"@),
        ("GOVERNANCE.md"@, "Governance"@),
        ("LICENSE"@, "Repository license summary"@),
        ("LICENSE-APACHE"@, "Apache license"@),
        ("LICENSE-MIT"@, "MIT license"@),
        ("MAINTAINERS.md"@, "Maintainers"@),
        ("README.md"@, "Facade README"@),
        ("release-plz.toml"@, "release-plz configuration"@),
        ("RELEASE.md"@, "Release notes"@),
        ("RELEASING.md"@, "Release process"@),
        ("rust-toolchain.toml"@, "Rust toolchain pin"@),
    ]
}

/// The facade's optional files.
pub open spec fn facade_optional_files() -> Seq<(Seq<char>, Seq<char>)> {
    seq![
        (".gitlab-ci.yml"@, "GitLab CI"@),
        ("Makefile"@, "Make targets"@),
    ]
}

/// The facade's required directories.
pub open spec fn facade_required_directories() -> Seq<(Seq<char>, Seq<char>)> {
    seq![
        (".cargo"@, "Cargo configuration"@),
        (".github"@, "GitHub configuration"@),
        ("crates"@, "Crate workspace members"@),
    ]
}

/// The facade's optional directories.
pub open spec fn facade_optional_directories() -> Seq<(Seq<char>, Seq<char>)> {
    seq![
        (".devcontainer"@, "Dev container"@),
        (".gitlab"@, "GitLab configuration"@),
    ]
}

/// The standard surface of a facade repository.
pub fn facade_surface_profile() -> (profile: SurfaceProfile)
    ensures
        standard_views(profile.required_files@) == facade_required_files(),
        standard_views(profile.optional_files@) == facade_optional_files(),
        standard_views(profile.required_directories@) == facade_required_directories(),
        standard_views(profile.optional_directories@) == facade_optional_directories(),
{
    let required_files: Vec<StandardPath> = vec![
        (".clippy.toml", "Clippy configuration"),
        (".editorconfig", "EditorConfig"),
        (".gitattributes", "Git attributes"),
        (".gitignore", "Git ignore rules"),
        (".gitleaks.toml", "Gitleaks configuration"),
        (".markdownlintignore", "Markdownlint ignore rules"),
        (".rustfmt.toml", "Rustfmt configuration"),
        (".taplo.toml", "Taplo configuration"),
        (".trivyignore", "Trivy ignore rules"),
        ("Cargo.lock", "Cargo lockfile"),
        ("Cargo.toml", "Workspace manifest"),
        ("CHANGELOG.md", "Changelog"),
        ("CONTRIBUTING.md", "Contribution guide"),
        ("deny.toml", "cargo-deny configuration"),
        ("GOVERNANCE.md", "Governance"),
        ("LICENSE", "Repository license summary"),
        ("LICENSE-APACHE", "Apache license"),
        ("LICENSE-MIT", "MIT license"),
        ("MAINTAINERS.md", "Maintainers"),
        ("README.md", "Facade README"),
        ("release-plz.toml", "release-plz configuration"),
        ("RELEASE.md", "Release notes"),
        ("RELEASING.md", "Release process"),
        ("rust-toolchain.toml", "Rust toolchain pin"),
    ];
    let optional_files: Vec<StandardPath> = vec![(".gitlab-ci.yml", "GitLab CI"), ("Makefile", "Make targets")];
    let required_directories: Vec<StandardPath> = vec![
        (".cargo", "Cargo configuration"),
        (".github", "GitHub configuration"),
        ("crates", "Crate workspace members"),
    ];
    let optional_directories: Vec<StandardPath> = vec![(".devcontainer", "Dev container"), (".gitlab", "GitLab configuration")];
    assert(standard_views(required_files@) =~= facade_required_files());
    assert(standard_views(optional_files@) =~= facade_optional_files());
    assert(standard_views(required_directories@) =~= facade_required_directories());
    assert(standard_views(optional_directories@) =~= facade_optional_directories());
    SurfaceProfile { required_files, optional_files, required_directories, optional_directories }
}

/// How a non-standard path is looked for.
#[derive(Clone, Copy, Debug, PartialEq, Eq, Structural)]
pub enum NonStandardPathKind {
    Directory,
    File,
}

/// A path that should not exist, and what to do about it.
#[derive(Clone, Copy, Debug)]
pub struct NonStandardPathRule {
    pub path: &'static str,
    pub kind: NonStandardPathKind,
    pub recommendation: &'static str,
}

/// Whether one non-standard path exists.
#[derive(Clone, Copy, Debug)]
pub struct NonStandardPathCheck {
    pub path: &'static str,
    pub recommendation: &'static str,
    pub present: bool,
}

/// The checks of the non-standard paths of a repository.
#[derive(Clone, Debug)]
pub struct NonStandardPathReport {
    pub checks: Vec<NonStandardPathCheck>,
}

/// The checks of `s` whose path exists, in order.
pub open spec fn present_checks_of(s: Seq<NonStandardPathCheck>) -> Seq<NonStandardPathCheck>
    decreases s.len(),
{
    if s.len() == 0 {
        seq![]
    } else {
        present_checks_of(s.drop_last()) + if s.last().present {
            seq![s.last()]
        } else {
            seq![]
        }
    }
}

proof fn lemma_present_checks_bound(s: Seq<NonStandardPathCheck>)
    ensures
        present_checks_of(s).len() <= s.len(),
    decreases s.len(),
{
    if s.len() > 0 {
        lemma_present_checks_bound(s.drop_last());
    }
}

impl NonStandardPathReport {
    /// The checks whose path exists, in order.
    pub fn present_checks(&self) -> (r: Vec<NonStandardPathCheck>)
        ensures
            r@ == present_checks_of(self.checks@),
    {
        let mut r: Vec<NonStandardPathCheck> = Vec::new();
        let mut i: usize = 0;
        while i < self.checks.len()
            invariant
                i <= self.checks.len(),
                r@ == present_checks_of(self.checks@.take(i as int)),
            decreases self.checks.len() - i,
        {
            assert(self.checks@.take(i + 1).drop_last() =~= self.checks@.take(i as int));
            if self.checks[i].present {
                r.push(self.checks[i]);
            }
            assert(r@ =~= present_checks_of(self.checks@.take(i + 1)));
            i = i + 1;
        }
        assert(self.checks@.take(i as int) =~= self.checks@);
        r
    }

    /// The number of checks.
    pub fn total_count(&self) -> (n: usize)
        ensures
            n == self.checks@.len(),
    {
        self.checks.len()
    }

    /// The number of non-standard paths that exist.
    pub fn present_count(&self) -> (n: usize)
        ensures
            n == present_checks_of(self.checks@).len(),
    {
        let present = self.present_checks();
        present.len()
    }

    /// `ok` where no non-standard path exists, else `warning`.
    pub fn status(&self) -> (s: &'static str)
        ensures
            s@ == if present_checks_of(self.checks@).len() == 0 {
                "ok"@
            } else {
                "warning"@
            },
    {
        if self.present_count() == 0 {
            "ok"
        } else {
            "warning"
        }
    }
}

/// The checks of the non-standard path rules, given whether each path
/// exists.
pub fn inspect_non_standard_paths(rules: &Vec<NonStandardPathRule>, present: &Vec<bool>) -> (report: NonStandardPathReport)
    requires
        present@.len() == rules@.len(),
    ensures
        report.checks@.len() == rules@.len(),
        forall|i: int| 0 <= i < rules@.len() ==> {
            &&& (#[trigger] report.checks@[i]).path@ == rules@[i].path@
            &&& report.checks@[i].recommendation@ == rules@[i].recommendation@
            &&& report.checks@[i].present == present@[i]
        },
{
    let mut checks: Vec<NonStandardPathCheck> = Vec::new();
    let mut i: usize = 0;
    while i < rules.len()
        invariant
            i <= rules.len(),
            present@.len() == rules@.len(),
            checks@.len() == i,
            forall|k: int| 0 <= k < i ==> {
                &&& (#[trigger] checks@[k]).path@ == rules@[k].path@
                &&& checks@[k].recommendation@ == rules@[k].recommendation@
                &&& checks@[k].present == present@[k]
            },
        decreases rules.len() - i,
    {
        checks.push(NonStandardPathCheck { path: rules[i].path, recommendation: rules[i].recommendation, present: present[i] });
        i = i + 1;
    }
    NonStandardPathReport { checks }
}

/// The non-standard paths of a facade repository.
pub fn facade_non_standard_paths() -> (rules: Vec<NonStandardPathRule>)
    ensures
        rules@.len() == 2,
        rules@[0].path@ == "docs/"@,
        rules@[0].kind == NonStandardPathKind::Directory,
        rules@[0].recommendation@ == "Move facade documentation to the central docs repository."@,
        rules@[1].path@ == "Makefile"@,
        rules@[1].kind == NonStandardPathKind::File,
        rules@[1].recommendation@ == "Remove the Makefile; use Cargo commands or repository scripts instead."@,
{
    vec![
        NonStandardPathRule {
            path: "docs/",
            kind: NonStandardPathKind::Directory,
            recommendation: "Move facade documentation to the central docs repository.",
        },
        NonStandardPathRule {
            path: "Makefile",
            kind: NonStandardPathKind::File,
            recommendation: "Remove the Makefile; use Cargo commands or repository scripts instead.",
        },
    ]
}

/// Whether a path of a surface is present.
#[derive(Clone, Debug)]
pub struct PresenceCheck {
    pub path: String,
    pub present: bool,
}

impl PresenceCheck {
    /// The check of `path`.
    pub fn new(path: String, present: bool) -> (c: PresenceCheck)
        ensures
            c.path@ == path@,
            c.present == present,
    {
        PresenceCheck { path, present }
    }
}

/// How many checks of `s` are present.
pub open spec fn count_present(s: Seq<PresenceCheck>) -> nat
    decreases s.len(),
{
    if s.len() == 0 {
        0
    } else {
        count_present(s.drop_last()) + if s.last().present { 1nat } else { 0nat }
    }
}

/// The paths of the checks of `s` that are not present, in order.
pub open spec fn absent_paths(s: Seq<PresenceCheck>) -> Seq<Seq<char>>
    decreases s.len(),
{
    if s.len() == 0 {
        seq![]
    } else {
        absent_paths(s.drop_last()) + if s.last().present {
            seq![]
        } else {
            seq![s.last().path@]
        }
    }
}

proof fn lemma_count_present_bound(s: Seq<PresenceCheck>)
    ensures
        count_present(s) <= s.len(),
    decreases s.len(),
{
    if s.len() > 0 {
        lemma_count_present_bound(s.drop_last());
    }
}

/// The number of present checks.
pub fn present_count(s: &Vec<PresenceCheck>) -> (n: usize)
    ensures
        n == count_present(s@),
{
    let mut n: usize = 0;
    let mut i: usize = 0;
    while i < s.len()
        invariant
            i <= s.len(),
            n == count_present(s@.take(i as int)),
        decreases s.len() - i,
    {
        proof {
            assert(s@.take(i + 1).drop_last() =~= s@.take(i as int));
            lemma_count_present_bound(s@.take(i as int));
        }
        if s[i].present {
            n = n + 1;
        }
        i = i + 1;
    }
    assert(s@.take(i as int) =~= s@);
    n
}

/// The paths that are not present, in order.
pub fn absent(s: &Vec<PresenceCheck>) -> (paths: Vec<String>)
    ensures
        crate::text::views(paths@) == absent_paths(s@),
{
    let mut paths: Vec<String> = Vec::new();
    let mut i: usize = 0;
    while i < s.len()
        invariant
            i <= s.len(),
            crate::text::views(paths@) == absent_paths(s@.take(i as int)),
        decreases s.len() - i,
    {
        assert(s@.take(i + 1).drop_last() =~= s@.take(i as int));
        if !s[i].present {
            let ghost before = crate::text::views(paths@);
            paths.push(s[i].path.clone());
            assert(crate::text::views(paths@) =~= before.push(s@[i as int].path@));
        }
        assert(crate::text::views(paths@) =~= absent_paths(s@.take(i + 1)));
        i = i + 1;
    }
    assert(s@.take(i as int) =~= s@);
    paths
}

/// The documentation files of a repository, by presence.
#[derive(Clone, Debug)]
pub struct DocumentationSurfaceReport {
    pub surface: Vec<PresenceCheck>,
}

impl DocumentationSurfaceReport {
    /// The number of documentation files looked for.
    pub fn total_count(&self) -> (n: usize)
        ensures
            n == self.surface@.len(),
    {
        self.surface.len()
    }

    /// The number present.
    pub fn present_count(&self) -> (n: usize)
        ensures
            n == count_present(self.surface@),
    {
        present_count(&self.surface)
    }

    /// `ok` where every documentation file is present, else `warning`.
    pub fn status(&self) -> (s: &'static str)
        ensures
            s@ == if absent_paths(self.surface@).len() == 0 {
                "ok"@
            } else {
                "warning"@
            },
    {
        let missing = absent(&self.surface);
        if missing.len() == 0 {
            "ok"
        } else {
            "warning"
        }
    }
}

/// The documentation files a repository should hold.
pub fn documentation_surface_paths() -> (paths: Vec<&'static str>)
    ensures
        paths@.map_values(|p: &str| p@) == seq!["README.md"@, "CHANGELOG.md"@, "CONTRIBUTING.md"@, "GOVERNANCE.md"@, "MAINTAINERS.md"@],
{
    let paths = vec!["README.md", "CHANGELOG.md", "CONTRIBUTING.md", "GOVERNANCE.md", "MAINTAINERS.md"];
    assert(paths@.map_values(|p: &str| p@) =~= seq!["README.md"@, "CHANGELOG.md"@, "CONTRIBUTING.md"@, "GOVERNANCE.md"@, "MAINTAINERS.md"@]);
    paths
}

/// The GitLab CI surface of a repository.
#[derive(Clone, Debug)]
pub struct GitLabReport {
    pub surface: Vec<PresenceCheck>,
}

impl GitLabReport {
    /// The number of GitLab paths looked for.
    pub fn total_count(&self) -> (n: usize)
        ensures
            n == self.surface@.len(),
    {
        self.surface.len()
    }

    /// The number present.
    pub fn present_count(&self) -> (n: usize)
        ensures
            n == count_present(self.surface@),
    {
        present_count(&self.surface)
    }
}

/// The GitLab report: `.gitlab/` and `.gitlab-ci.yml`, given whether the
/// directory and the file exist.
pub fn gitlab_report(dir_present: bool, file_present: bool) -> (report: GitLabReport)
    ensures
        report.surface@.len() == 2,
        report.surface@[0].path@ == ".gitlab/"@,
        report.surface@[0].present == dir_present,
        report.surface@[1].path@ == ".gitlab-ci.yml"@,
        report.surface@[1].present == file_present,
{
    let surface = vec![
        PresenceCheck::new(".gitlab/".to_owned(), dir_present),
        PresenceCheck::new(".gitlab-ci.yml".to_owned(), file_present),
    ];
    GitLabReport { surface }
}

/// The status of a surface: `ok` where every path is present, else
/// `warning`.
pub open spec fn presence_status(s: Seq<PresenceCheck>) -> Seq<char> {
    if absent_paths(s).len() == 0 {
        "ok"@
    } else {
        "warning"@
    }
}

/// The status label of a surface.
pub fn surface_status(s: &Vec<PresenceCheck>) -> (label: &'static str)
    ensures
        label@ == presence_status(s@),
{
    let missing = absent(s);
    if missing.len() == 0 {
        "ok"
    } else {
        "warning"
    }
}

/// The release surface of a repository: its release files and the release
/// CI/CD files.
#[derive(Clone, Debug)]
pub struct ReleaseSurfaceReport {
    pub surface: Vec<PresenceCheck>,
    pub ci_surface: Vec<PresenceCheck>,
}

impl ReleaseSurfaceReport {
    /// The status of the release files.
    pub fn status(&self) -> (label: &'static str)
        ensures
            label@ == presence_status(self.surface@),
    {
        surface_status(&self.surface)
    }
}

/// The tooling surface of a repository.
#[derive(Clone, Debug)]
pub struct ToolingSurfaceReport {
    pub surface: Vec<PresenceCheck>,
}

impl ToolingSurfaceReport {
    /// The status of the tooling files.
    pub fn status(&self) -> (label: &'static str)
        ensures
            label@ == presence_status(self.surface@),
    {
        surface_status(&self.surface)
    }
}

/// The GitHub CI/CD surface of a repository: the required CI/CD paths and
/// the required workflow files, by presence.
#[derive(Clone, Debug)]
pub struct GitHubWorkflowReport {
    pub required_surface: Vec<PresenceCheck>,
    pub required_workflows: Vec<PresenceCheck>,
}

impl GitHubWorkflowReport {
    /// The required paths that are missing, in order.
    pub fn missing_required_paths(&self) -> (paths: Vec<String>)
        ensures
            crate::text::views(paths@) == absent_paths(self.required_surface@),
    {
        absent(&self.required_surface)
    }

    /// The status of the required CI/CD surface.
    pub fn status(&self) -> (label: &'static str)
        ensures
            label@ == presence_status(self.required_surface@),
    {
        surface_status(&self.required_surface)
    }
}

/// The tooling files of a facade repository.
pub fn tooling_surface_paths() -> (paths: Vec<&'static str>)
    ensures
        paths@.map_values(|p: &str| p@) == seq![".cargo/"@, "rust-toolchain.toml"@, "deny.toml"@],
{
    let paths = vec![".cargo/", "rust-toolchain.toml", "deny.toml"];
    assert(paths@.map_values(|p: &str| p@) =~= seq![".cargo/"@, "rust-toolchain.toml"@, "deny.toml"@]);
    paths
}

/// The release files of a facade repository.
pub fn release_surface_paths() -> (paths: Vec<&'static str>)
    ensures
        paths@.map_values(|p: &str| p@) == seq!["CHANGELOG.md"@, "RELEASE.md"@, "RELEASING.md"@, "release-plz.toml"@],
{
    let paths = vec!["CHANGELOG.md", "RELEASE.md", "RELEASING.md", "release-plz.toml"];
    assert(paths@.map_values(|p: &str| p@) =~= seq!["CHANGELOG.md"@, "RELEASE.md"@, "RELEASING.md"@, "release-plz.toml"@]);
    paths
}

/// The release CI/CD files of a facade repository.
pub fn release_ci_surface_paths() -> (paths: Vec<&'static str>)
    ensures
        paths@.map_values(|p: &str| p@) == seq![".github/workflows/release-plz.yml"@],
{
    let paths = vec![".github/workflows/release-plz.yml"];
    assert(paths@.map_values(|p: &str| p@) =~= seq![".github/workflows/release-plz.yml"@]);
    paths
}

/// The required GitHub CI/CD paths of a facade repository.
pub fn github_required_surface_paths() -> (paths: Vec<&'static str>)
    ensures
        paths@.map_values(|p: &str| p@) == seq![".github/"@, ".github/workflows/"@],
{
    let paths = vec![".github/", ".github/workflows/"];
    assert(paths@.map_values(|p: &str| p@) =~= seq![".github/"@, ".github/workflows/"@]);
    paths
}

/// The required GitHub workflows of a facade repository: those of the
/// standard GitHub policy.
pub fn github_required_workflow_paths() -> (paths: Vec<&'static str>)
    ensures
        paths@.map_values(|p: &str| p@) == seq![
            crate::github_policy::CI_WORKFLOW_RELATIVE_PATH@,
            crate::github_policy::RELEASE_PLZ_WORKFLOW_RELATIVE_PATH@,
            crate::github_policy::SECURITY_WORKFLOW_RELATIVE_PATH@,
        ],
{
    let paths = vec![
        crate::github_policy::CI_WORKFLOW_RELATIVE_PATH,
        crate::github_policy::RELEASE_PLZ_WORKFLOW_RELATIVE_PATH,
        crate::github_policy::SECURITY_WORKFLOW_RELATIVE_PATH,
    ];
    assert(paths@.map_values(|p: &str| p@) =~= seq![
        crate::github_policy::CI_WORKFLOW_RELATIVE_PATH@,
        crate::github_policy::RELEASE_PLZ_WORKFLOW_RELATIVE_PATH@,
        crate::github_policy::SECURITY_WORKFLOW_RELATIVE_PATH@,
    ]);
    paths
}

/// The presence checks of `paths`, given whether each is present.
pub fn presence_checks(paths: &Vec<&'static str>, present: &Vec<bool>) -> (checks: Vec<PresenceCheck>)
    requires
        present@.len() == paths@.len(),
    ensures
        checks@.len() == paths@.len(),
        forall|i: int| 0 <= i < checks@.len() ==> (#[trigger] checks@[i]).path@ == paths@[i]@ && checks@[i].present
            == present@[i],
{
    let mut checks: Vec<PresenceCheck> = Vec::new();
    let mut i: usize = 0;
    while i < paths.len()
        invariant
            i <= paths.len(),
            present@.len() == paths@.len(),
            checks@.len() == i,
            forall|k: int| 0 <= k < i ==> (#[trigger] checks@[k]).path@ == paths@[k]@ && checks@[k].present == present@[k],
        decreases paths.len() - i,
    {
        checks.push(PresenceCheck::new(paths[i].to_owned(), present[i]));
        i = i + 1;
    }
    checks
}

} // verus!
