//! Where RustUse keeps its files in a project, and what a look at the
//! project found there.

use vstd::prelude::*;
use vstd::string::StrSliceExecFns;

use crate::text::{push_char, push_str};

verus! {

/// The configuration file.
pub const CONFIG_FILE: &'static str = "rustuse.toml";
/// The Cargo manifest.
pub const CARGO_FILE: &'static str = "Cargo.toml";
/// The lock file.
pub const LOCK_FILE: &'static str = "rustuse.lock";
/// The state directory.
pub const STATE_DIR: &'static str = ".rustuse";
/// The cache directory.
pub const CACHE_DIR: &'static str = ".rustuse/cache";
/// The snapshot directory.
pub const SNAPSHOTS_DIR: &'static str = ".rustuse/snapshots";

/// `rel` beneath `root`, joined as a path joins a relative component: with a
/// separator between them unless `root` is empty or already ends in one.
pub open spec fn join_path(root: Seq<char>, rel: Seq<char>) -> Seq<char> {
    if root.len() == 0 {
        rel
    } else if root.last() == '/' {
        root + rel
    } else {
        root + seq!['/'] + rel
    }
}

/// `rel` beneath `root`; `rel` is relative.
pub fn join(root: &str, rel: &str) -> (path: String)
    ensures
        path@ == join_path(root@, rel@),
{
    let n = root.unicode_len();
    let mut path = root.to_owned();
    if n > 0 && root.get_char(n - 1) != '/' {
        push_char(&mut path, '/');
    }
    push_str(&mut path, rel);
    path
}

/// The lock file of the project at `root`.
pub fn lock_path(root: &str) -> (path: String)
    ensures
        path@ == join_path(root@, LOCK_FILE@),
{
    join(root, LOCK_FILE)
}

/// The configuration file of the project at `root`.
pub fn config_path(root: &str) -> (path: String)
    ensures
        path@ == join_path(root@, CONFIG_FILE@),
{
    join(root, CONFIG_FILE)
}

/// The six paths that RustUse looks at in a project.
#[derive(Clone, Debug)]
pub struct ProjectPaths {
    pub cargo_toml_path: String,
    pub config_path: String,
    pub lock_path: String,
    pub state_dir_path: String,
    pub cache_dir_path: String,
    pub snapshots_dir_path: String,
}

/// Whether `paths` are the standard paths beneath `root`.
pub open spec fn standard_paths(paths: ProjectPaths, root: Seq<char>) -> bool {
    &&& paths.cargo_toml_path@ == join_path(root, CARGO_FILE@)
    &&& paths.config_path@ == join_path(root, CONFIG_FILE@)
    &&& paths.lock_path@ == join_path(root, LOCK_FILE@)
    &&& paths.state_dir_path@ == join_path(root, STATE_DIR@)
    &&& paths.cache_dir_path@ == join_path(root, CACHE_DIR@)
    &&& paths.snapshots_dir_path@ == join_path(root, SNAPSHOTS_DIR@)
}

/// The standard paths of the project at `root`.
pub fn project_paths(root: &str) -> (paths: ProjectPaths)
    ensures
        standard_paths(paths, root@),
{
    ProjectPaths {
        cargo_toml_path: join(root, CARGO_FILE),
        config_path: config_path(root),
        lock_path: lock_path(root),
        state_dir_path: join(root, STATE_DIR),
        cache_dir_path: join(root, CACHE_DIR),
        snapshots_dir_path: join(root, SNAPSHOTS_DIR),
    }
}

/// What was found at each of the standard paths: whether the two files and
/// the lock are regular files and the three directories are directories.
#[derive(Clone, Copy, Debug)]
pub struct PathPresence {
    pub cargo_toml_is_file: bool,
    pub config_is_file: bool,
    pub lock_is_file: bool,
    pub state_dir_is_dir: bool,
    pub cache_dir_is_dir: bool,
    pub snapshots_dir_is_dir: bool,
}

/// A snapshot of the RustUse files and directories of a project. The flags
/// are independent observations, not exclusive states.
#[derive(Clone, Debug)]
pub struct ProjectState {
    pub cargo_toml_path: String,
    pub config_path: String,
    pub lock_path: String,
    pub state_dir_path: String,
    pub cache_dir_path: String,
    pub snapshots_dir_path: String,
    pub has_cargo_toml: bool,
    pub has_config: bool,
    pub has_lock: bool,
    pub has_state_dir: bool,
    pub has_cache_dir: bool,
    pub has_snapshots_dir: bool,
}

/// The state of the project at `root`, given what was found at its
/// standard paths (those of `project_paths(root)`).
pub fn detect(root: &str, found: PathPresence) -> (state: ProjectState)
    ensures
        state.cargo_toml_path@ == join_path(root@, CARGO_FILE@),
        state.config_path@ == join_path(root@, CONFIG_FILE@),
        state.lock_path@ == join_path(root@, LOCK_FILE@),
        state.state_dir_path@ == join_path(root@, STATE_DIR@),
        state.cache_dir_path@ == join_path(root@, CACHE_DIR@),
        state.snapshots_dir_path@ == join_path(root@, SNAPSHOTS_DIR@),
        state.has_cargo_toml == found.cargo_toml_is_file,
        state.has_config == found.config_is_file,
        state.has_lock == found.lock_is_file,
        state.has_state_dir == found.state_dir_is_dir,
        state.has_cache_dir == found.cache_dir_is_dir,
        state.has_snapshots_dir == found.snapshots_dir_is_dir,
{
    let paths = project_paths(root);
    ProjectState {
        cargo_toml_path: paths.cargo_toml_path,
        config_path: paths.config_path,
        lock_path: paths.lock_path,
        state_dir_path: paths.state_dir_path,
        cache_dir_path: paths.cache_dir_path,
        snapshots_dir_path: paths.snapshots_dir_path,
        has_cargo_toml: found.cargo_toml_is_file,
        has_config: found.config_is_file,
        has_lock: found.lock_is_file,
        has_state_dir: found.state_dir_is_dir,
        has_cache_dir: found.cache_dir_is_dir,
        has_snapshots_dir: found.snapshots_dir_is_dir,
    }
}

} // verus!
