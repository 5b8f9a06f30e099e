//! The project configuration held in `rustuse.toml`.

use vstd::prelude::*;

use vstd::string::{StrSliceExecFns, StringExecFns};

use crate::text::push_char;

verus! {

/// The version of the configuration format.
pub const CONFIG_VERSION: u32 = 1;

/// The license a new project is given.
pub const DEFAULT_LICENSE: &'static str = "MIT OR Apache-2.0";

/// The whole configuration of a project.
#[derive(Clone, Debug)]
pub struct RustUseConfig {
    pub version: u32,
    pub project: ProjectConfig,
    pub facade: Option<FacadeConfig>,
    pub tracking: TrackingConfig,
    pub primitives: Vec<PrimitiveConfig>,
}

/// Whether `config` is the fresh configuration of a project named `name`
/// whose project section is `project`.
pub open spec fn is_fresh_config(config: RustUseConfig, name: Seq<char>) -> bool {
    &&& config.version == CONFIG_VERSION
    &&& config.project.name@ == name
    &&& config.project.kind == ProjectKind::Project
    &&& config.project.license@ == DEFAULT_LICENSE@
    &&& config.facade is None
    &&& config.tracking.snapshots
    &&& config.tracking.cache
    &&& config.primitives@.len() == 0
}

impl RustUseConfig {
    /// The configuration of a new project that adopts crates through Cargo.
    pub fn cargo_first(project_name: String) -> (config: RustUseConfig)
        ensures
            is_fresh_config(config, project_name@),
            config.project.default_adoption == AdoptionMode::Cargo,
            config.project.copy_root@ == "src"@,
            config.project.test_root@ == "tests"@,
    {
        RustUseConfig {
            version: CONFIG_VERSION,
            project: ProjectConfig::cargo_first(project_name),
            facade: None,
            tracking: TrackingConfig::default(),
            primitives: Vec::new(),
        }
    }

    /// The configuration of a new project that copies crate sources in.
    pub fn copy_first(project_name: String) -> (config: RustUseConfig)
        ensures
            is_fresh_config(config, project_name@),
            config.project.default_adoption == AdoptionMode::Copy,
            config.project.copy_root@ == "src/rustuse"@,
            config.project.test_root@ == "tests/rustuse"@,
    {
        RustUseConfig {
            version: CONFIG_VERSION,
            project: ProjectConfig::copy_first(project_name),
            facade: None,
            tracking: TrackingConfig::default(),
            primitives: Vec::new(),
        }
    }
}

/// The `[project]` section.
#[derive(Clone, Debug)]
pub struct ProjectConfig {
    pub name: String,
    pub kind: ProjectKind,
    pub default_adoption: AdoptionMode,
    pub copy_root: String,
    pub test_root: String,
    pub license: String,
}

impl ProjectConfig {
    /// The project section of a project that adopts crates through Cargo.
    pub fn cargo_first(name: String) -> (project: ProjectConfig)
        ensures
            project.name@ == name@,
            project.kind == ProjectKind::Project,
            project.default_adoption == AdoptionMode::Cargo,
            project.copy_root@ == "src"@,
            project.test_root@ == "tests"@,
            project.license@ == DEFAULT_LICENSE@,
    {
        ProjectConfig {
            name,
            kind: ProjectKind::Project,
            default_adoption: AdoptionMode::Cargo,
            copy_root: String::from_str("src"),
            test_root: String::from_str("tests"),
            license: String::from_str(DEFAULT_LICENSE),
        }
    }

    /// The project section of a project that copies crate sources in.
    pub fn copy_first(name: String) -> (project: ProjectConfig)
        ensures
            project.name@ == name@,
            project.kind == ProjectKind::Project,
            project.default_adoption == AdoptionMode::Copy,
            project.copy_root@ == "src/rustuse"@,
            project.test_root@ == "tests/rustuse"@,
            project.license@ == DEFAULT_LICENSE@,
    {
        ProjectConfig {
            name,
            kind: ProjectKind::Project,
            default_adoption: AdoptionMode::Copy,
            copy_root: String::from_str("src/rustuse"),
            test_root: String::from_str("tests/rustuse"),
            license: String::from_str(DEFAULT_LICENSE),
        }
    }
}

/// What kind of repository a project is.
#[derive(Clone, Copy, Debug, PartialEq, Eq, Structural, Hash)]
pub enum ProjectKind {
    Project,
    Facade,
}

/// The label of a project kind.
pub open spec fn project_kind_label(k: ProjectKind) -> Seq<char> {
    match k {
        ProjectKind::Project => "project"@,
        ProjectKind::Facade => "facade"@,
    }
}

impl ProjectKind {
    /// The label of the kind, as the configuration writes it.
    pub fn as_str(self) -> (label: &'static str)
        ensures
            label@ == project_kind_label(self),
    {
        match self {
            ProjectKind::Project => "project",
            ProjectKind::Facade => "facade",
        }
    }
}

/// The `[facade]` section.
#[derive(Clone, Debug)]
pub struct FacadeConfig {
    pub name: String,
    pub crates_dir: String,
    pub homepage: String,
}

/// The `[tracking]` section.
#[derive(Clone, Debug)]
pub struct TrackingConfig {
    pub snapshots: bool,
    pub cache: bool,
}

impl Default for TrackingConfig {
    fn default() -> (tracking: TrackingConfig)
        ensures
            tracking.snapshots,
            tracking.cache,
    {
        TrackingConfig { snapshots: true, cache: true }
    }
}

/// How a crate is adopted into a project.
#[derive(Clone, Copy, Debug, PartialEq, Eq, Structural, Hash)]
pub enum AdoptionMode {
    Cargo,
    Copy,
}

/// The label of an adoption mode.
pub open spec fn adoption_mode_label(m: AdoptionMode) -> Seq<char> {
    match m {
        AdoptionMode::Cargo => "cargo"@,
        AdoptionMode::Copy => "copy"@,
    }
}

impl AdoptionMode {
    /// The label of the mode, as the configuration writes it.
    pub fn as_str(self) -> (label: &'static str)
        ensures
            label@ == adoption_mode_label(self),
    {
        match self {
            AdoptionMode::Cargo => "cargo",
            AdoptionMode::Copy => "copy",
        }
    }
}

/// One `[[primitives]]` entry.
#[derive(Clone, Debug)]
pub struct PrimitiveConfig {
    pub name: String,
    pub mode: AdoptionMode,
    pub version: Option<String>,
    pub target: Option<String>,
    pub with_tests: bool,
    pub with_examples: bool,
}

/// `raw` ending in a line break: unchanged where it ends in `\n`, else with
/// one appended.
pub open spec fn with_trailing_newline(raw: Seq<char>) -> Seq<char> {
    if raw.len() > 0 && raw.last() == '\n' {
        raw
    } else {
        raw.push('\n')
    }
}

/// Appends a line break to `raw` where it does not end in one, as a written
/// configuration file does.
pub fn ensure_trailing_newline(raw: String) -> (r: String)
    ensures
        r@ == with_trailing_newline(raw@),
{
    let mut raw = raw;
    let n = raw.as_str().unicode_len();
    if n > 0 && raw.as_str().get_char(n - 1) == '\n' {
        raw
    } else {
        push_char(&mut raw, '\n');
        raw
    }
}

} // verus!
