//! The local RustUse fleet: the summary of its root directory, its
//! repositories and facades, and the diagnostics over their manifests.

use vstd::prelude::*;
use vstd::string::StringExecFns;

use crate::facade_issue::{status_label, FacadeStatus};
use crate::facade_model::shape_status;
use crate::github_model::{facade_name_of, GithubTarget};
use crate::manifest_model::{capped, count_fn, sum_over, FacadeManifestReport, ManifestCount};
use crate::toml_tree::{get_str, get_table, parse_toml_document, toml_parse_outcome};
use crate::text::{is_prefix, lemma_seq_lt_irreflexive, lemma_seq_lt_transitive, seq_lt, starts_with, str_eq, text_less};

verus! {

broadcast use vstd::seq_lib::group_to_multiset_ensures;

/// A directory found at the top of the fleet root.
#[derive(Clone, Debug)]
pub struct RootEntry {
    /// The entry's path.
    pub path: String,
    /// Its file name, where it is valid UTF-8.
    pub name: Option<String>,
    pub is_dir: bool,
    /// Whether it holds a `.git` directory.
    pub has_git: bool,
}

/// What the fleet root holds.
#[derive(Clone, Debug)]
pub struct RootSummary {
    pub has_cli: bool,
    pub has_docs: bool,
    /// The number of `use-*` directories.
    pub use_dir_count: usize,
    /// The number of those with a `.git` directory.
    pub facade_git_count: usize,
    /// The paths of those without one, sorted.
    pub missing_git: Vec<String>,
}

/// Whether an entry is a facade candidate: a directory whose name starts
/// with `use-`.
pub open spec fn is_facade_dir(e: RootEntry) -> bool {
    e.is_dir && e.name is Some && is_prefix("use-"@, e.name->0@)
}

/// The facade candidates of the entries, in order.
pub open spec fn facade_dirs(s: Seq<RootEntry>) -> Seq<RootEntry>
    decreases s.len(),
{
    if s.len() == 0 {
        seq![]
    } else {
        facade_dirs(s.drop_last()) + if is_facade_dir(s.last()) {
            seq![s.last()]
        } else {
            seq![]
        }
    }
}

/// The number of facade candidates with a `.git` directory.
pub open spec fn count_with_git(s: Seq<RootEntry>) -> nat
    decreases s.len(),
{
    if s.len() == 0 {
        0
    } else {
        count_with_git(s.drop_last()) + if s.last().has_git { 1nat } else { 0nat }
    }
}

/// The paths of the facade candidates without a `.git` directory, in order.
pub open spec fn paths_without_git(s: Seq<RootEntry>) -> Seq<Seq<char>>
    decreases s.len(),
{
    if s.len() == 0 {
        seq![]
    } else {
        paths_without_git(s.drop_last()) + if s.last().has_git {
            seq![]
        } else {
            seq![s.last().path@]
        }
    }
}

/// Whether no text of `s` is followed by one that comes before it.
pub open spec fn texts_sorted(s: Seq<Seq<char>>) -> bool {
    forall|i: int, j: int| #![trigger s[i], s[j]] 0 <= i < j < s.len() ==> !seq_lt(s[j], s[i])
}

proof fn lemma_facade_dirs_len(s: Seq<RootEntry>)
    ensures
        facade_dirs(s).len() <= s.len(),
        count_with_git(facade_dirs(s)) <= facade_dirs(s).len(),
    decreases s.len(),
{
    if s.len() > 0 {
        lemma_facade_dirs_len(s.drop_last());
        let f = facade_dirs(s);
        if is_facade_dir(s.last()) {
            assert(f.drop_last() =~= facade_dirs(s.drop_last()));
        } else {
            assert(f =~= facade_dirs(s.drop_last()));
        }
    }
}

/// Sorts texts, keeping the order of equal ones.
pub fn sort_texts(v: Vec<String>) -> (r: Vec<String>)
    ensures
        texts_sorted(crate::text::views(r@)),
        crate::text::views(r@).to_multiset() == crate::text::views(v@).to_multiset(),
{
    let mut pending = v;
    let ghost original = crate::text::views(pending@);
    let mut sorted: Vec<String> = Vec::new();
    while pending.len() > 0
        invariant
            texts_sorted(crate::text::views(sorted@)),
            crate::text::views(sorted@).to_multiset().add(crate::text::views(pending@).to_multiset()) == original.to_multiset(),
        decreases pending.len(),
    {
        let ghost before = crate::text::views(pending@);
        let item = pending.remove(0);
        proof {
            assert(crate::text::views(pending@) =~= before.remove(0));
            vstd::seq_lib::to_multiset_remove(before, 0);
        }
        let ghost old_sorted = crate::text::views(sorted@);
        let mut pos: usize = 0;
        let mut found = false;
        while pos < sorted.len() && !found
            invariant
                pos <= sorted.len(),
                old_sorted == crate::text::views(sorted@),
                forall|k: int| 0 <= k < pos ==> !seq_lt(item@, #[trigger] old_sorted[k]),
                found ==> pos < sorted.len() && seq_lt(item@, old_sorted[pos as int]),
            decreases sorted.len() - pos + if found { 0int } else { 1int },
        {
            if text_less(item.as_str(), sorted[pos].as_str()) {
                found = true;
            } else {
                pos = pos + 1;
            }
        }
        proof {
            assert forall|k: int| pos <= k < old_sorted.len() implies !seq_lt(#[trigger] old_sorted[k], item@) by {
                if seq_lt(old_sorted[k], item@) {
                    lemma_seq_lt_transitive(old_sorted[k], item@, old_sorted[pos as int]);
                    lemma_seq_lt_irreflexive(old_sorted[k]);
                }
            }
            vstd::seq_lib::to_multiset_insert(old_sorted, pos as int, item@);
        }
        let ghost iv = item@;
        sorted.insert(pos, item);
        proof {
            let s = crate::text::views(sorted@);
            assert(s =~= old_sorted.insert(pos as int, iv));
            assert forall|i: int, j: int| #![trigger s[i], s[j]] 0 <= i < j < s.len() implies !seq_lt(s[j], s[i]) by {
                if j < pos {
                    assert(s[i] == old_sorted[i] && s[j] == old_sorted[j]);
                } else if j == pos {
                    assert(s[i] == old_sorted[i]);
                } else if i == pos {
                    assert(s[j] == old_sorted[j - 1]);
                } else if i < pos {
                    assert(s[i] == old_sorted[i] && s[j] == old_sorted[j - 1]);
                } else {
                    assert(s[i] == old_sorted[i - 1] && s[j] == old_sorted[j - 1]);
                }
            }
            assert(crate::text::views(sorted@).to_multiset().add(crate::text::views(pending@).to_multiset()) =~= old_sorted.to_multiset().add(
                before.to_multiset()));
        }
    }
    proof {
        assert(crate::text::views(pending@) =~= Seq::<Seq<char>>::empty());
        assert(crate::text::views(pending@).to_multiset() =~= vstd::multiset::Multiset::<Seq<char>>::empty());
        assert(crate::text::views(sorted@).to_multiset().add(vstd::multiset::Multiset::<Seq<char>>::empty()) =~= crate::text::views(
            sorted@).to_multiset());
    }
    sorted
}

/// The summary of a fleet root from what it holds: whether it has `cli/`
/// and `docs/` directories, and its top-level entries. Every directory whose
/// name starts with `use-` is a facade; those without `.git` are listed,
/// sorted by path.
pub fn summarize_root(has_cli: bool, has_docs: bool, entries: &Vec<RootEntry>) -> (summary: RootSummary)
    ensures
        summary.has_cli == has_cli,
        summary.has_docs == has_docs,
        summary.use_dir_count == facade_dirs(entries@).len(),
        summary.facade_git_count == count_with_git(facade_dirs(entries@)),
        texts_sorted(crate::text::views(summary.missing_git@)),
        crate::text::views(summary.missing_git@).to_multiset() == paths_without_git(facade_dirs(entries@)).to_multiset(),
{
    let mut use_dir_count: usize = 0;
    let mut facade_git_count: usize = 0;
    let mut missing: Vec<String> = Vec::new();
    let mut i: usize = 0;
    while i < entries.len()
        invariant
            i <= entries.len(),
            use_dir_count == facade_dirs(entries@.take(i as int)).len(),
            facade_git_count == count_with_git(facade_dirs(entries@.take(i as int))),
            crate::text::views(missing@) == paths_without_git(facade_dirs(entries@.take(i as int))),
        decreases entries.len() - i,
    {
        let e = &entries[i];
        proof {
            assert(entries@.take(i + 1).drop_last() =~= entries@.take(i as int));
            lemma_facade_dirs_len(entries@.take(i as int));
        }
        let candidate = match &e.name {
            Some(n) => e.is_dir && starts_with(n.as_str(), "use-"),
            None => false,
        };
        if candidate {
            let ghost before = facade_dirs(entries@.take(i as int));
            assert(facade_dirs(entries@.take(i + 1)) == before.push(*e));
            assert(before.push(*e).drop_last() =~= before);
            use_dir_count = use_dir_count + 1;
            if e.has_git {
                facade_git_count = facade_git_count + 1;
            } else {
                missing.push(e.path.clone());
                assert(crate::text::views(missing@) =~= paths_without_git(before).push(e.path@));
            }
        } else {
            assert(facade_dirs(entries@.take(i + 1)) =~= facade_dirs(entries@.take(i as int)));
        }
        i = i + 1;
    }
    assert(entries@.take(i as int) =~= entries@);
    let missing_git = sort_texts(missing);
    RootSummary { has_cli, has_docs, use_dir_count, facade_git_count, missing_git }
}

/// The name shown for a path: its last component, or `<unknown>` where it
/// has none.
pub open spec fn display_name_of(p: Seq<char>) -> Seq<char> {
    if facade_name_of(p) == seq!['.'] {
        "<unknown>"@
    } else {
        facade_name_of(p)
    }
}

/// The name shown for a path.
pub fn display_name(path: &str) -> (name: String)
    ensures
        name@ == display_name_of(path@),
{
    let target = GithubTarget::from_facade_path(path);
    if str_eq(target.facade.as_str(), ".") {
        proof {
            reveal_strlit(".");
            assert("."@ =~= seq!['.']);
        }
        String::from_str("<unknown>")
    } else {
        proof {
            reveal_strlit(".");
            assert("."@ =~= seq!['.']);
        }
        target.facade
    }
}

/// One of the standard fleet repositories.
#[derive(Clone, Debug)]
pub struct FleetRepoEntry {
    pub name: String,
    pub present: bool,
    pub has_git: bool,
}

/// One `use-*` facade of the fleet.
#[derive(Clone, Debug)]
pub struct FleetFacadeEntry {
    pub name: String,
    pub version: Option<String>,
    pub has_git: bool,
    pub has_cargo_toml: bool,
    pub has_crates_dir: bool,
    pub child_crate_count: usize,
}

/// The status of a fleet facade: the status of its shape.
pub open spec fn fleet_facade_status(f: FleetFacadeEntry) -> Seq<char> {
    status_label(shape_status(f.has_cargo_toml, f.has_git, f.has_crates_dir, f.child_crate_count as nat))
}

/// The version shown for a facade: `-` where it has none.
pub open spec fn version_text(v: Option<String>) -> Seq<char> {
    match v {
        Some(x) => x@,
        None => "-"@,
    }
}

impl FleetFacadeEntry {
    /// The status of the facade's shape.
    pub fn status(&self) -> (s: &'static str)
        ensures
            s@ == fleet_facade_status(*self),
    {
        if !self.has_cargo_toml {
            FacadeStatus::Error.as_str()
        } else if !self.has_git || !self.has_crates_dir || self.child_crate_count == 0 {
            FacadeStatus::Warning.as_str()
        } else {
            FacadeStatus::Healthy.as_str()
        }
    }
}

/// The version shown for a facade.
pub fn display_version(v: &Option<String>) -> (s: &str)
    ensures
        s@ == version_text(*v),
{
    match v {
        Some(x) => x.as_str(),
        None => "-",
    }
}

/// The `package.version` string of a manifest text, where the text parses
/// and has one.
pub open spec fn package_version_of(text: Seq<char>) -> Option<Seq<char>> {
    match toml_parse_outcome(text) {
        Ok(doc) => match get_table(doc, "package"@) {
            Some(p) => get_str(p, "version"@),
            None => None,
        },
        Err(_) => None,
    }
}

/// The version of a facade, read from its root manifest's text.
pub fn package_version(text: &str) -> (r: Option<String>)
    ensures
        match r {
            Some(v) => package_version_of(text@) == Some(v@),
            None => package_version_of(text@) is None,
        },
{
    match parse_toml_document(text) {
        Ok(doc) => match doc.get_table("package") {
            Some(p) => match p.get_str("version") {
                Some(v) => Some(v.clone()),
                None => None,
            },
            None => None,
        },
        Err(_) => None,
    }
}

/// The diagnostics of a fleet.
#[derive(Debug)]
pub struct FleetDiagnostics {
    pub fleet: String,
    pub name: String,
    pub root_summary: RootSummary,
    pub repos: Vec<FleetRepoEntry>,
    pub facades: Vec<FleetFacadeEntry>,
    pub manifests: Vec<FacadeManifestReport>,
}

/// The sum of a per-facade manifest count over the facades' reports, each
/// capped as its report counts it.
pub open spec fn fleet_sum(rs: Seq<FacadeManifestReport>, which: ManifestCount) -> nat
    decreases rs.len(),
{
    if rs.len() == 0 {
        0
    } else {
        fleet_sum(rs.drop_last(), which) + capped(sum_over(rs.last().manifests@, count_fn(which)))
    }
}

/// The number of manifests over the facades' reports.
pub open spec fn fleet_manifest_total(rs: Seq<FacadeManifestReport>) -> nat
    decreases rs.len(),
{
    if rs.len() == 0 {
        0
    } else {
        fleet_manifest_total(rs.drop_last()) + rs.last().manifests@.len()
    }
}

/// The number of child crates over the facades.
pub open spec fn fleet_child_total(fs: Seq<FleetFacadeEntry>) -> nat
    decreases fs.len(),
{
    if fs.len() == 0 {
        0
    } else {
        fleet_child_total(fs.drop_last()) + fs.last().child_crate_count as nat
    }
}

/// The number of fleet repositories that are not present.
pub open spec fn missing_repo_total(rs: Seq<FleetRepoEntry>) -> nat
    decreases rs.len(),
{
    if rs.len() == 0 {
        0
    } else {
        missing_repo_total(rs.drop_last()) + if rs.last().present { 0nat } else { 1nat }
    }
}

proof fn lemma_missing_repo_bound(rs: Seq<FleetRepoEntry>)
    ensures
        missing_repo_total(rs) <= rs.len(),
    decreases rs.len(),
{
    if rs.len() > 0 {
        lemma_missing_repo_bound(rs.drop_last());
    }
}

/// Whether a fleet has something to warn of: no CLI or documentation
/// repository, a missing fleet repository, no facade, a facade without
/// `.git`, or a manifest warning.
pub open spec fn fleet_has_warning(d: FleetDiagnostics) -> bool {
    ||| !d.root_summary.has_cli
    ||| !d.root_summary.has_docs
    ||| missing_repo_total(d.repos@) > 0
    ||| d.root_summary.use_dir_count == 0
    ||| d.root_summary.missing_git@.len() > 0
    ||| capped(fleet_sum(d.manifests@, ManifestCount::Warnings)) > 0
}

/// The status of a fleet: `error` with manifest errors, else `warning`
/// with something to warn of, else `ok`.
pub open spec fn fleet_status(d: FleetDiagnostics) -> Seq<char> {
    if capped(fleet_sum(d.manifests@, ManifestCount::Errors)) > 0 {
        "error"@
    } else if fleet_has_warning(d) {
        "warning"@
    } else {
        "ok"@
    }
}

impl FleetDiagnostics {
    fn sum_reports(&self, which: ManifestCount) -> (n: usize)
        ensures
            n as nat == capped(fleet_sum(self.manifests@, which)),
    {
        let mut n: usize = 0;
        let mut i: usize = 0;
        while i < self.manifests.len()
            invariant
                i <= self.manifests.len(),
                n as nat == capped(fleet_sum(self.manifests@.take(i as int), which)),
            decreases self.manifests.len() - i,
        {
            assert(self.manifests@.take(i + 1).drop_last() =~= self.manifests@.take(i as int));
            let r = &self.manifests[i];
            let k = match which {
                ManifestCount::Issues => r.issue_count(),
                ManifestCount::Errors => r.error_count(),
                ManifestCount::Warnings => r.warning_count(),
                ManifestCount::InvalidCategories => r.invalid_category_count(),
            };
            n = n.saturating_add(k);
            i = i + 1;
        }
        assert(self.manifests@.take(i as int) =~= self.manifests@);
        n
    }

    /// The number of `use-*` facades.
    pub fn facade_count(&self) -> (n: usize)
        ensures
            n == self.root_summary.use_dir_count,
    {
        self.root_summary.use_dir_count
    }

    /// The number of facades with `.git`.
    pub fn facade_git_count(&self) -> (n: usize)
        ensures
            n == self.root_summary.facade_git_count,
    {
        self.root_summary.facade_git_count
    }

    /// The number of facades without `.git`.
    pub fn missing_facade_git_count(&self) -> (n: usize)
        ensures
            n == self.root_summary.missing_git@.len(),
    {
        self.root_summary.missing_git.len()
    }

    /// Whether the fleet has a CLI repository.
    pub fn has_cli(&self) -> (r: bool)
        ensures
            r == self.root_summary.has_cli,
    {
        self.root_summary.has_cli
    }

    /// Whether the fleet has a documentation repository.
    pub fn has_docs(&self) -> (r: bool)
        ensures
            r == self.root_summary.has_docs,
    {
        self.root_summary.has_docs
    }

    /// The names of the facades without `.git`, in order.
    pub fn missing_facade_git_names(&self) -> (names: Vec<String>)
        ensures
            names@.len() == self.root_summary.missing_git@.len(),
            forall|i: int| 0 <= i < names@.len() ==> (#[trigger] names@[i])@ == display_name_of(self.root_summary.missing_git@[i]@),
    {
        let mut names: Vec<String> = Vec::new();
        let mut i: usize = 0;
        while i < self.root_summary.missing_git.len()
            invariant
                i <= self.root_summary.missing_git.len(),
                names@.len() == i,
                forall|k: int| 0 <= k < i ==> (#[trigger] names@[k])@ == display_name_of(self.root_summary.missing_git@[k]@),
            decreases self.root_summary.missing_git.len() - i,
        {
            names.push(display_name(self.root_summary.missing_git[i].as_str()));
            i = i + 1;
        }
        names
    }

    /// The number of child crates over the facades, capped at `usize::MAX`.
    pub fn child_crate_count(&self) -> (n: usize)
        ensures
            n as nat == capped(fleet_child_total(self.facades@)),
    {
        let mut n: usize = 0;
        let mut i: usize = 0;
        while i < self.facades.len()
            invariant
                i <= self.facades.len(),
                n as nat == capped(fleet_child_total(self.facades@.take(i as int))),
            decreases self.facades.len() - i,
        {
            assert(self.facades@.take(i + 1).drop_last() =~= self.facades@.take(i as int));
            n = n.saturating_add(self.facades[i].child_crate_count);
            i = i + 1;
        }
        assert(self.facades@.take(i as int) =~= self.facades@);
        n
    }

    /// The number of fleet repositories that are not present.
    pub fn missing_fleet_repo_count(&self) -> (n: usize)
        ensures
            n as nat == missing_repo_total(self.repos@),
    {
        let mut n: usize = 0;
        let mut i: usize = 0;
        while i < self.repos.len()
            invariant
                i <= self.repos.len(),
                n as nat == missing_repo_total(self.repos@.take(i as int)),
            decreases self.repos.len() - i,
        {
            proof {
                assert(self.repos@.take(i + 1).drop_last() =~= self.repos@.take(i as int));
                lemma_missing_repo_bound(self.repos@.take(i as int));
            }
            if !self.repos[i].present {
                n = n + 1;
            }
            i = i + 1;
        }
        assert(self.repos@.take(i as int) =~= self.repos@);
        n
    }

    /// The number of manifests inspected over the fleet, capped at
    /// `usize::MAX`.
    pub fn manifest_count(&self) -> (n: usize)
        ensures
            n as nat == capped(fleet_manifest_total(self.manifests@)),
    {
        let mut n: usize = 0;
        let mut i: usize = 0;
        while i < self.manifests.len()
            invariant
                i <= self.manifests.len(),
                n as nat == capped(fleet_manifest_total(self.manifests@.take(i as int))),
            decreases self.manifests.len() - i,
        {
            assert(self.manifests@.take(i + 1).drop_last() =~= self.manifests@.take(i as int));
            n = n.saturating_add(self.manifests[i].manifest_count());
            i = i + 1;
        }
        assert(self.manifests@.take(i as int) =~= self.manifests@);
        n
    }

    /// The number of manifest issues over the fleet, capped at `usize::MAX`.
    pub fn manifest_issue_count(&self) -> (n: usize)
        ensures
            n as nat == capped(fleet_sum(self.manifests@, ManifestCount::Issues)),
    {
        self.sum_reports(ManifestCount::Issues)
    }

    /// The number of manifest errors over the fleet, capped at `usize::MAX`.
    pub fn manifest_error_count(&self) -> (n: usize)
        ensures
            n as nat == capped(fleet_sum(self.manifests@, ManifestCount::Errors)),
    {
        self.sum_reports(ManifestCount::Errors)
    }

    /// The number of manifest warnings over the fleet, capped at
    /// `usize::MAX`.
    pub fn manifest_warning_count(&self) -> (n: usize)
        ensures
            n as nat == capped(fleet_sum(self.manifests@, ManifestCount::Warnings)),
    {
        self.sum_reports(ManifestCount::Warnings)
    }

    /// The number of invalid category slugs over the fleet, capped at
    /// `usize::MAX`.
    pub fn invalid_category_count(&self) -> (n: usize)
        ensures
            n as nat == capped(fleet_sum(self.manifests@, ManifestCount::InvalidCategories)),
    {
        self.sum_reports(ManifestCount::InvalidCategories)
    }

    /// Whether the fleet has something to warn of.
    pub fn has_warning(&self) -> (r: bool)
        ensures
            r == fleet_has_warning(*self),
    {
        !self.has_cli() || !self.has_docs() || self.missing_fleet_repo_count() > 0 || self.facade_count() == 0
            || self.missing_facade_git_count() > 0 || self.manifest_warning_count() > 0
    }

    /// The status of the fleet.
    pub fn status(&self) -> (s: &'static str)
        ensures
            s@ == fleet_status(*self),
    {
        if self.manifest_error_count() > 0 {
            "error"
        } else if self.has_warning() {
            "warning"
        } else {
            "ok"
        }
    }
}

/// The manifest texts of one fleet facade: its root manifest, where it has
/// one, and the manifests of its child crates.
#[derive(Debug)]
pub struct FleetFacadeSources {
    pub name: String,
    pub root: Option<crate::manifest_analysis::ManifestSource>,
    pub children: Vec<crate::manifest_analysis::ChildManifest>,
}

/// Whether `report` is the manifest analysis of the sources of a facade.
pub open spec fn analyses(report: FacadeManifestReport, f: FleetFacadeSources) -> bool {
    exists|order: Seq<crate::manifest_analysis::ChildManifest>, found: Seq<crate::manifest_workspace::CrateManifestInfo>,
        infos: Seq<crate::manifest_workspace::CrateManifestInfo>|
        crate::manifest_analysis::repository_report_is(report, f.name@, f.root, f.children@, order, found, infos)
}

/// The manifest analysis of each facade of a fleet, in order.
pub fn analyze_fleet_manifests(facades: Vec<FleetFacadeSources>) -> (reports: Vec<FacadeManifestReport>)
    ensures
        reports@.len() == facades@.len(),
        forall|i: int| 0 <= i < reports@.len() ==> analyses(#[trigger] reports@[i], facades@[i]),
{
    let ghost all = facades@;
    let mut pending = facades;
    let mut reports: Vec<FacadeManifestReport> = Vec::new();
    while pending.len() > 0
        invariant
            reports@.len() + pending@.len() == all.len(),
            pending@ == all.skip(reports@.len() as int),
            forall|i: int| 0 <= i < reports@.len() ==> analyses(#[trigger] reports@[i], all[i]),
        decreases pending.len(),
    {
        let ghost before = pending@;
        let f = pending.remove(0);
        assert(f == all[reports@.len() as int]);
        let ghost fv = f;
        let report = crate::manifest_analysis::analyze_facade_repository_manifests(f.name.as_str(), f.root, f.children);
        assert(analyses(report, fv));
        reports.push(report);
        assert(pending@ =~= all.skip(reports@.len() as int));
    }
    reports
}

/// The standard repositories of a fleet besides its facades.
pub fn fleet_repository_names() -> (names: Vec<&'static str>)
    ensures
        names@.map_values(|n: &str| n@) == seq![".github"@, ".github-private"@, "cli"@, "docs"@, "infra"@, "mcp"@, "rustuse"@],
{
    let names = vec![".github", ".github-private", "cli", "docs", "infra", "mcp", "rustuse"];
    assert(names@.map_values(|n: &str| n@) =~= seq![".github"@, ".github-private"@, "cli"@, "docs"@, "infra"@, "mcp"@, "rustuse"@]);
    names
}


/// A fleet is `ok` exactly when it has the `cli` and `docs` repositories,
/// misses no fleet repository, has a `use-*` directory, every one of them
/// with `.git`, and its manifests have no error and no warning. So a fleet
/// with a facade directory that lacks `.git` is never `ok`: it is `error`
/// where its manifests have errors, `warning` otherwise.
pub proof fn lemma_fleet_status(d: FleetDiagnostics)
    ensures
        (fleet_status(d) == "ok"@) <==> {
            &&& d.root_summary.has_cli
            &&& d.root_summary.has_docs
            &&& missing_repo_total(d.repos@) == 0
            &&& d.root_summary.use_dir_count > 0
            &&& d.root_summary.missing_git@.len() == 0
            &&& fleet_sum(d.manifests@, ManifestCount::Errors) == 0
            &&& fleet_sum(d.manifests@, ManifestCount::Warnings) == 0
        },
        d.root_summary.missing_git@.len() > 0 ==> fleet_status(d) == (if fleet_sum(d.manifests@, ManifestCount::Errors) > 0 {
            "error"@
        } else {
            "warning"@
        }),
{
    reveal_strlit("ok");
    reveal_strlit("error");
    reveal_strlit("warning");
    assert("ok"@ != "error"@) by {
        assert("ok"@.len() != "error"@.len());
    }
    assert("ok"@ != "warning"@) by {
        assert("ok"@.len() != "warning"@.len());
    }
}
} // verus!
