//! A facade repository as it was found: its root, name and child crates,
//! and what was present at their standard paths.

use vstd::prelude::*;
use vstd::string::StringExecFns;

use crate::facade_issue::{FacadeCrateKind, FacadeStatus};
use crate::project::{join, join_path};
use crate::text::{is_prefix, join as join_texts, join_seq, str_eq, views};

verus! {

/// What was found at a facade's standard paths.
#[derive(Clone, Copy, Debug)]
pub struct FacadePresence {
    pub git_dir_is_dir: bool,
    pub manifest_is_file: bool,
    pub crates_dir_is_dir: bool,
}

/// A facade repository.
#[derive(Clone, Debug)]
pub struct FacadeInfo {
    pub root: String,
    pub name: String,
    pub git_dir: String,
    pub manifest_path: String,
    pub crates_dir: String,
    /// The manifests of the child crates, in path order.
    pub crate_manifest_paths: Vec<String>,
    pub found: FacadePresence,
}

/// The status of a facade's shape: an error without a root manifest, a
/// warning without git, a `crates/` directory or a child crate.
pub open spec fn shape_status(has_manifest: bool, has_git: bool, has_crates_dir: bool, crate_count: nat) -> FacadeStatus {
    if !has_manifest {
        FacadeStatus::Error
    } else if !has_git || !has_crates_dir || crate_count == 0 {
        FacadeStatus::Warning
    } else {
        FacadeStatus::Healthy
    }
}

/// `path` relative to `root`, where it lies beneath it; else `path` as it
/// is. (Paths are compared as written, one separator between components.)
pub open spec fn relative_to(root: Seq<char>, path: Seq<char>) -> Seq<char> {
    let r = if root.len() > 0 && root.last() == '/' { root.drop_last() } else { root };
    if path == r {
        Seq::empty()
    } else if is_prefix(r + seq!['/'], path) {
        path.skip(r.len() + 1int)
    } else {
        path
    }
}

impl FacadeInfo {
    /// The facade at `root`, named `name`, with the given child manifests.
    pub fn new(root: String, name: String, crate_manifest_paths: Vec<String>, found: FacadePresence) -> (f: FacadeInfo)
        ensures
            f.root@ == root@,
            f.name@ == name@,
            f.git_dir@ == join_path(root@, ".git"@),
            f.manifest_path@ == join_path(root@, "Cargo.toml"@),
            f.crates_dir@ == join_path(root@, "crates"@),
            f.crate_manifest_paths@ == crate_manifest_paths@,
            f.found == found,
    {
        let git_dir = join(root.as_str(), ".git");
        let manifest_path = join(root.as_str(), "Cargo.toml");
        let crates_dir = join(root.as_str(), "crates");
        FacadeInfo { root, name, git_dir, manifest_path, crates_dir, crate_manifest_paths, found }
    }

    /// Whether `.git` is a directory.
    pub fn has_git(&self) -> (r: bool)
        ensures
            r == self.found.git_dir_is_dir,
    {
        self.found.git_dir_is_dir
    }

    /// Whether the root `Cargo.toml` is a file.
    pub fn has_manifest(&self) -> (r: bool)
        ensures
            r == self.found.manifest_is_file,
    {
        self.found.manifest_is_file
    }

    /// Whether `crates/` is a directory.
    pub fn has_crates_dir(&self) -> (r: bool)
        ensures
            r == self.found.crates_dir_is_dir,
    {
        self.found.crates_dir_is_dir
    }

    /// The number of child crates.
    pub fn crate_count(&self) -> (n: usize)
        ensures
            n == self.crate_manifest_paths@.len(),
    {
        self.crate_manifest_paths.len()
    }

    /// Whether the facade has a child crate.
    pub fn has_child_crates(&self) -> (r: bool)
        ensures
            r == (self.crate_manifest_paths@.len() > 0),
    {
        self.crate_count() > 0
    }

    /// The status of the facade's shape.
    pub fn facade_status(&self) -> (s: FacadeStatus)
        ensures
            s == shape_status(self.found.manifest_is_file, self.found.git_dir_is_dir, self.found.crates_dir_is_dir,
                self.crate_manifest_paths@.len()),
    {
        if !self.has_manifest() {
            FacadeStatus::Error
        } else if !self.has_git() || !self.has_crates_dir() || !self.has_child_crates() {
            FacadeStatus::Warning
        } else {
            FacadeStatus::Healthy
        }
    }

    /// The label of the facade's shape status.
    pub fn status(&self) -> (s: &'static str)
        ensures
            s@ == crate::facade_issue::status_label(
                shape_status(self.found.manifest_is_file, self.found.git_dir_is_dir, self.found.crates_dir_is_dir,
                    self.crate_manifest_paths@.len()),
            ),
    {
        self.facade_status().as_str()
    }

    /// `path` relative to the facade root.
    pub fn relative_path(&self, path: &str) -> (r: String)
        ensures
            r@ == relative_to(self.root@, path@),
    {
        let rc = crate::text::chars_of(self.root.as_str());
        let pc = crate::text::chars_of(path);
        let mut n: usize = rc.len();
        if n > 0 && rc[n - 1] == '/' {
            n = n - 1;
        }
        let ghost r = rc@.take(n as int);
        assert(r == if self.root@.len() > 0 && self.root@.last() == '/' {
            self.root@.drop_last()
        } else {
            self.root@
        });
        let mut same = n <= pc.len();
        let mut i: usize = 0;
        while same && i < n
            invariant
                i <= n <= rc.len(),
                rc@ == self.root@,
                pc@ == path@,
                r == rc@.take(n as int),
                same ==> n <= pc.len() && forall|k: int| 0 <= k < i ==> pc@[k] == rc@[k],
                !same ==> !is_prefix(r, path@),
            decreases n - i + if same { 1int } else { 0int },
        {
            if pc[i] != rc[i] {
                same = false;
                assert(path@[i as int] != r[i as int]);
            } else {
                i = i + 1;
            }
        }
        if !same {
            proof {
                if path@ == r {
                    assert(path@.subrange(0, r.len() as int) =~= r);
                }
                if is_prefix(r + seq!['/'], path@) {
                    assert forall|k: int| 0 <= k < r.len() implies path@[k] == r[k] by {
                        assert((r + seq!['/'])[k] == r[k]);
                        assert(path@.subrange(0, r.len() + 1int)[k] == path@[k]);
                    }
                    assert(path@.subrange(0, r.len() as int) =~= r);
                }
            }
            return path.to_owned();
        }
        assert(path@.subrange(0, r.len() as int) =~= r);
        if pc.len() == n {
            assert(path@ =~= r);
            return String::new();
        }
        if pc[n] != '/' {
            proof {
                assert(path@ != r);
                if is_prefix(r + seq!['/'], path@) {
                    assert((r + seq!['/'])[n as int] == '/');
                }
            }
            return path.to_owned();
        }
        assert(is_prefix(r + seq!['/'], path@)) by {
            assert forall|k: int| 0 <= k < r.len() + 1 implies path@[k] == (r + seq!['/'])[k] by {
                if k < r.len() {
                    assert(path@.subrange(0, r.len() as int)[k] == path@[k]);
                }
            }
            assert(path@.subrange(0, r.len() + 1int) =~= r + seq!['/']);
        }
        assert(path@ != r);
        let mut out = String::new();
        let mut j: usize = n + 1;
        while j < pc.len()
            invariant
                n + 1 <= j <= pc.len(),
                pc@ == path@,
                out@ == pc@.subrange(n + 1, j as int),
            decreases pc.len() - j,
        {
            crate::text::push_char(&mut out, pc[j]);
            assert(pc@.subrange(n + 1, j + 1) =~= pc@.subrange(n + 1, j as int).push(pc@[j as int]));
            j = j + 1;
        }
        assert(out@ =~= path@.skip(r.len() + 1int));
        out
    }
}

/// What was found at a crate's documentation paths.
#[derive(Clone, Copy, Debug)]
pub struct CratePresence {
    pub readme_is_file: bool,
    pub lib_is_file: bool,
    pub prelude_is_file: bool,
}

/// A crate of a facade: the facade package or a child.
#[derive(Clone, Debug)]
pub struct FacadeCrateInfo {
    pub kind: FacadeCrateKind,
    pub name: String,
    pub manifest_path: String,
    pub readme_path: String,
    pub lib_path: String,
    pub prelude_path: String,
    pub found: CratePresence,
}

/// Whether the documentation of a crate is complete: a README and a
/// `src/lib.rs`, and for the facade package a `src/prelude.rs`.
pub open spec fn docs_complete(kind: FacadeCrateKind, found: CratePresence) -> bool {
    found.readme_is_file && found.lib_is_file && (kind != FacadeCrateKind::Facade || found.prelude_is_file)
}

/// The notes on a crate's missing documentation.
pub open spec fn doc_note_list(kind: FacadeCrateKind, found: CratePresence) -> Seq<Seq<char>> {
    (if found.readme_is_file { seq![] } else { seq!["missing README.md"@] }) + (if found.lib_is_file {
        seq![]
    } else {
        seq!["missing src/lib.rs"@]
    }) + (if kind == FacadeCrateKind::Facade && !found.prelude_is_file {
        seq!["missing facade src/prelude.rs"@]
    } else {
        seq![]
    })
}

/// The notes on a crate's missing documentation joined with `; `, or `ok`.
pub open spec fn doc_notes_text(kind: FacadeCrateKind, found: CratePresence) -> Seq<char> {
    if doc_note_list(kind, found).len() == 0 {
        "ok"@
    } else {
        join_seq(doc_note_list(kind, found), "; "@)
    }
}

impl FacadeCrateInfo {
    /// The crate in directory `dir_name` under the facade's `crates/`: the
    /// facade package where the directory has the facade's name.
    pub fn from_crate_dir(facade: &FacadeInfo, dir_name: &str, found: CratePresence) -> (c: FacadeCrateInfo)
        ensures
            c.name@ == dir_name@,
            c.kind == if dir_name@ == facade.name@ { FacadeCrateKind::Facade } else { FacadeCrateKind::Child },
            c.manifest_path@ == join_path(join_path(facade.crates_dir@, dir_name@), "Cargo.toml"@),
            c.readme_path@ == join_path(join_path(facade.crates_dir@, dir_name@), "README.md"@),
            c.lib_path@ == join_path(join_path(facade.crates_dir@, dir_name@), "src/lib.rs"@),
            c.prelude_path@ == join_path(join_path(facade.crates_dir@, dir_name@), "src/prelude.rs"@),
            c.found == found,
    {
        let root = join(facade.crates_dir.as_str(), dir_name);
        let kind = if str_eq(dir_name, facade.name.as_str()) { FacadeCrateKind::Facade } else { FacadeCrateKind::Child };
        FacadeCrateInfo {
            kind,
            name: dir_name.to_owned(),
            manifest_path: join(root.as_str(), "Cargo.toml"),
            readme_path: join(root.as_str(), "README.md"),
            lib_path: join(root.as_str(), "src/lib.rs"),
            prelude_path: join(root.as_str(), "src/prelude.rs"),
            found,
        }
    }

    /// Whether the README is present.
    pub fn readme_present(&self) -> (r: bool)
        ensures
            r == self.found.readme_is_file,
    {
        self.found.readme_is_file
    }

    /// Whether `src/lib.rs` is present.
    pub fn lib_present(&self) -> (r: bool)
        ensures
            r == self.found.lib_is_file,
    {
        self.found.lib_is_file
    }

    /// Whether `src/prelude.rs` is present.
    pub fn prelude_present(&self) -> (r: bool)
        ensures
            r == self.found.prelude_is_file,
    {
        self.found.prelude_is_file
    }

    /// Whether the crate needs a prelude: the facade package does.
    pub fn requires_prelude(&self) -> (r: bool)
        ensures
            r == (self.kind == FacadeCrateKind::Facade),
    {
        matches!(self.kind, FacadeCrateKind::Facade)
    }

    /// `Healthy` where the crate's documentation is complete, else
    /// `Warning`.
    pub fn documentation_status(&self) -> (s: FacadeStatus)
        ensures
            s == if docs_complete(self.kind, self.found) { FacadeStatus::Healthy } else { FacadeStatus::Warning },
    {
        if self.readme_present() && self.lib_present() && (!self.requires_prelude() || self.prelude_present()) {
            FacadeStatus::Healthy
        } else {
            FacadeStatus::Warning
        }
    }

    /// The notes on the crate's missing documentation joined with `; `, or
    /// `ok`.
    pub fn documentation_notes(&self) -> (notes: String)
        ensures
            notes@ == doc_notes_text(self.kind, self.found),
    {
        let mut list: Vec<String> = Vec::new();
        if !self.readme_present() {
            list.push(String::from_str("missing README.md"));
        }
        if !self.lib_present() {
            list.push(String::from_str("missing src/lib.rs"));
        }
        if self.requires_prelude() && !self.prelude_present() {
            list.push(String::from_str("missing facade src/prelude.rs"));
        }
        assert(views(list@) =~= doc_note_list(self.kind, self.found));
        if list.len() == 0 {
            String::from_str("ok")
        } else {
            join_texts(&list, "; ")
        }
    }
}

} // verus!
