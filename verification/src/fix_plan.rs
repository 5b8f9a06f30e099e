//! Planning facade repairs: which manifest repairs a set of codes selects,
//! the facade name a repair needs, how repaired files are recorded, and how
//! a plan is checked and summarised before it is applied.

use vstd::prelude::*;
use vstd::string::{StrSliceExecFns, StringExecFns};

use crate::codes::{code_bucket, code_id, lemma_code_ids_unique, lemma_package_shape_id_not_group_text, FacadeIssueBucket, FacadeIssueCode};
use crate::fix_model::{count_created, FacadeFixChange, FacadeFixPlan, FacadeFixSummary, FixMode, PlannedFileChange};
use crate::text::{cat3, is_prefix, push_char, starts_with, str_eq};

verus! {

/// A group of manifest repairs that a code selects.
#[derive(Clone, Copy, Debug, PartialEq, Eq, Structural, Hash)]
pub enum ManifestFixGroup {
    All,
    FacadeWiring,
    WorkspaceShape,
    WorkspaceDependencies,
    PackageMetadata,
}

/// The codes that select the facade wiring repairs.
pub open spec fn facade_wiring_codes() -> Seq<Seq<char>> {
    seq![
        "facade-wiring"@,
        "missing-facade-dependencies"@,
        "missing-facade-child-dependency"@,
        "invalid-facade-child-dependency"@,
        "missing-facade-child-dependency-optional"@,
        "missing-facade-features"@,
        "invalid-facade-default-features"@,
        "missing-facade-default-features"@,
        "missing-facade-full-feature"@,
        "missing-full-feature-member"@,
        "missing-facade-child-feature"@,
        "invalid-facade-child-feature"@,
    ]
}

/// The codes that select the workspace shape repairs.
pub open spec fn workspace_shape_codes() -> Seq<Seq<char>> {
    seq![
        "workspace-shape"@,
        "missing-standard-workspace-member"@,
        "non-standard-workspace-members"@,
        "missing-workspace"@,
        "missing-workspace-members"@,
        "invalid-workspace-members"@,
        "missing-workspace-resolver"@,
        "workspace-resolver"@,
        "missing-workspace-package"@,
        "missing-workspace-package-field"@,
        "invalid-workspace-repository"@,
        "missing-workspace-categories"@,
        "missing-workspace-unsafe-code-policy"@,
        "invalid-workspace-unsafe-code-policy"@,
        "missing-workspace-clippy-lints"@,
    ]
}

/// The codes that select the workspace dependency repairs.
pub open spec fn workspace_dependency_codes() -> Seq<Seq<char>> {
    seq![
        "workspace-dependencies"@,
        "missing-workspace-dependencies"@,
        "missing-workspace-dependency"@,
        "invalid-workspace-dependency"@,
        "invalid-workspace-dependency-path"@,
        "missing-workspace-dependency-path"@,
        "missing-workspace-dependency-version"@,
    ]
}

/// The codes that select the package metadata repairs.
pub open spec fn package_metadata_codes() -> Seq<Seq<char>> {
    seq![
        "package-metadata"@,
        "missing-package-field"@,
        "missing-package-publish"@,
        "package-publish"@,
        "missing-package-categories"@,
        "missing-inherited-categories"@,
        "missing-package-inherited-field"@,
        "package-field-not-inherited"@,
        "invalid-package-homepage"@,
        "invalid-package-documentation"@,
        "missing-package-readme-file"@,
        "missing-docs-rs-all-features"@,
        "invalid-docs-rs-all-features"@,
        "missing-lints-workspace"@,
    ]
}

/// The group a code selects, if any: `all`, a group name, or an issue code
/// of the group.
pub open spec fn code_group(code: Seq<char>) -> Option<ManifestFixGroup> {
    if code == "all"@ {
        Some(ManifestFixGroup::All)
    } else if facade_wiring_codes().contains(code) {
        Some(ManifestFixGroup::FacadeWiring)
    } else if workspace_shape_codes().contains(code) {
        Some(ManifestFixGroup::WorkspaceShape)
    } else if workspace_dependency_codes().contains(code) {
        Some(ManifestFixGroup::WorkspaceDependencies)
    } else if package_metadata_codes().contains(code) {
        Some(ManifestFixGroup::PackageMetadata)
    } else {
        None
    }
}

/// The refusal of a code that selects no group.
pub open spec fn unknown_fix_code_message(code: Seq<char>) -> Seq<char> {
    "unknown manifest fix code or group `"@ + code + "`"@
}

fn in_list(code: &str, list: &Vec<&'static str>) -> (r: bool)
    ensures
        r == list@.map_values(|s: &str| s@).contains(code@),
{
    let ghost lv = list@.map_values(|s: &str| s@);
    let mut i: usize = 0;
    while i < list.len()
        invariant
            i <= list.len(),
            lv == list@.map_values(|s: &str| s@),
            forall|k: int| 0 <= k < i ==> lv[k] != code@,
        decreases list.len() - i,
    {
        if str_eq(code, list[i]) {
            assert(lv[i as int] == code@);
            return true;
        }
        i = i + 1;
    }
    false
}

/// The flags of the manifest repairs to run.
#[derive(Clone, Copy, Debug, PartialEq, Eq, Structural)]
pub struct FacadeManifestRepairs {
    pub workspace_shape: bool,
    pub workspace_dependencies: bool,
    pub facade_wiring: bool,
    pub package_metadata: bool,
}

impl ManifestFixGroup {
    /// The group that `code` selects.
    pub fn from_code(code: &str) -> (r: Result<ManifestFixGroup, String>)
        ensures
            match r {
                Ok(g) => code_group(code@) == Some(g),
                Err(e) => code_group(code@) is None && e@ == unknown_fix_code_message(code@),
            },
    {
        if str_eq(code, "all") {
            return Ok(ManifestFixGroup::All);
        }
        let wiring = vec![
            "facade-wiring",
            "missing-facade-dependencies",
            "missing-facade-child-dependency",
            "invalid-facade-child-dependency",
            "missing-facade-child-dependency-optional",
            "missing-facade-features",
            "invalid-facade-default-features",
            "missing-facade-default-features",
            "missing-facade-full-feature",
            "missing-full-feature-member",
            "missing-facade-child-feature",
            "invalid-facade-child-feature",
        ];
        assert(wiring@.map_values(|s: &str| s@) =~= facade_wiring_codes());
        if in_list(code, &wiring) {
            return Ok(ManifestFixGroup::FacadeWiring);
        }
        let shape = vec![
            "workspace-shape",
            "missing-standard-workspace-member",
            "non-standard-workspace-members",
            "missing-workspace",
            "missing-workspace-members",
            "invalid-workspace-members",
            "missing-workspace-resolver",
            "workspace-resolver",
            "missing-workspace-package",
            "missing-workspace-package-field",
            "invalid-workspace-repository",
            "missing-workspace-categories",
            "missing-workspace-unsafe-code-policy",
            "invalid-workspace-unsafe-code-policy",
            "missing-workspace-clippy-lints",
        ];
        assert(shape@.map_values(|s: &str| s@) =~= workspace_shape_codes());
        if in_list(code, &shape) {
            return Ok(ManifestFixGroup::WorkspaceShape);
        }
        let deps = vec![
            "workspace-dependencies",
            "missing-workspace-dependencies",
            "missing-workspace-dependency",
            "invalid-workspace-dependency",
            "invalid-workspace-dependency-path",
            "missing-workspace-dependency-path",
            "missing-workspace-dependency-version",
        ];
        assert(deps@.map_values(|s: &str| s@) =~= workspace_dependency_codes());
        if in_list(code, &deps) {
            return Ok(ManifestFixGroup::WorkspaceDependencies);
        }
        let metadata = vec![
            "package-metadata",
            "missing-package-field",
            "missing-package-publish",
            "package-publish",
            "missing-package-categories",
            "missing-inherited-categories",
            "missing-package-inherited-field",
            "package-field-not-inherited",
            "invalid-package-homepage",
            "invalid-package-documentation",
            "missing-package-readme-file",
            "missing-docs-rs-all-features",
            "invalid-docs-rs-all-features",
            "missing-lints-workspace",
        ];
        assert(metadata@.map_values(|s: &str| s@) =~= package_metadata_codes());
        if in_list(code, &metadata) {
            return Ok(ManifestFixGroup::PackageMetadata);
        }
        Err(cat3("unknown manifest fix code or group `", code, "`"))
    }

    /// The manifest repairs of the group.
    pub fn repairs(self) -> (r: FacadeManifestRepairs)
        ensures
            r == group_repairs(self),
    {
        FacadeManifestRepairs {
            workspace_shape: matches!(self, ManifestFixGroup::All | ManifestFixGroup::WorkspaceShape),
            workspace_dependencies: matches!(self, ManifestFixGroup::All | ManifestFixGroup::WorkspaceDependencies),
            facade_wiring: matches!(self, ManifestFixGroup::All | ManifestFixGroup::FacadeWiring),
            package_metadata: matches!(self, ManifestFixGroup::All | ManifestFixGroup::PackageMetadata),
        }
    }

    /// Whether the group repairs the child crates' manifests too.
    pub fn repairs_child_manifests(self) -> (r: bool)
        ensures
            r == group_repairs_children(self),
    {
        matches!(self, ManifestFixGroup::All | ManifestFixGroup::PackageMetadata)
    }
}

/// The manifest repairs of a group.
pub open spec fn group_repairs(g: ManifestFixGroup) -> FacadeManifestRepairs {
    FacadeManifestRepairs {
        workspace_shape: g == ManifestFixGroup::All || g == ManifestFixGroup::WorkspaceShape,
        workspace_dependencies: g == ManifestFixGroup::All || g == ManifestFixGroup::WorkspaceDependencies,
        facade_wiring: g == ManifestFixGroup::All || g == ManifestFixGroup::FacadeWiring,
        package_metadata: g == ManifestFixGroup::All || g == ManifestFixGroup::PackageMetadata,
    }
}

/// Whether a group repairs the child crates' manifests.
pub open spec fn group_repairs_children(g: ManifestFixGroup) -> bool {
    g == ManifestFixGroup::All || g == ManifestFixGroup::PackageMetadata
}

/// The repairs that a set of codes selects.
#[derive(Clone, Copy, Debug, PartialEq, Eq, Structural)]
pub struct ManifestFixSelection {
    pub repairs: FacadeManifestRepairs,
    pub repair_child_manifests: bool,
}

/// The union of two selections.
pub open spec fn union_selection(a: ManifestFixSelection, b: ManifestFixSelection) -> ManifestFixSelection {
    ManifestFixSelection {
        repairs: FacadeManifestRepairs {
            workspace_shape: a.repairs.workspace_shape || b.repairs.workspace_shape,
            workspace_dependencies: a.repairs.workspace_dependencies || b.repairs.workspace_dependencies,
            facade_wiring: a.repairs.facade_wiring || b.repairs.facade_wiring,
            package_metadata: a.repairs.package_metadata || b.repairs.package_metadata,
        },
        repair_child_manifests: a.repair_child_manifests || b.repair_child_manifests,
    }
}

/// The selection of one group.
pub open spec fn group_selection(g: ManifestFixGroup) -> ManifestFixSelection {
    ManifestFixSelection { repairs: group_repairs(g), repair_child_manifests: group_repairs_children(g) }
}

/// The selection of nothing.
pub open spec fn empty_selection() -> ManifestFixSelection {
    ManifestFixSelection {
        repairs: FacadeManifestRepairs {
            workspace_shape: false,
            workspace_dependencies: false,
            facade_wiring: false,
            package_metadata: false,
        },
        repair_child_manifests: false,
    }
}

/// The selection that the codes give, each code's group joined in; `None`
/// where a code selects no group.
pub open spec fn codes_selection(codes: Seq<Seq<char>>) -> Option<ManifestFixSelection>
    decreases codes.len(),
{
    if codes.len() == 0 {
        Some(empty_selection())
    } else {
        match (codes_selection(codes.drop_last()), code_group(codes.last())) {
            (Some(s), Some(g)) => Some(union_selection(s, group_selection(g))),
            _ => None,
        }
    }
}

/// The first code of `codes` that selects no group.
pub open spec fn first_unknown_code(codes: Seq<Seq<char>>) -> Seq<char>
    decreases codes.len(),
{
    if codes.len() == 0 {
        Seq::empty()
    } else if code_group(codes[0]) is None {
        codes[0]
    } else {
        first_unknown_code(codes.drop_first())
    }
}

proof fn lemma_codes_selection_prefix(codes: Seq<Seq<char>>, i: int)
    requires
        0 <= i < codes.len(),
        codes_selection(codes.take(i)) is Some,
        code_group(codes[i]) is None,
    ensures
        codes_selection(codes) is None,
    decreases codes.len(),
{
    if i < codes.len() - 1 {
        assert(codes.drop_last().take(i) =~= codes.take(i));
        lemma_codes_selection_prefix(codes.drop_last(), i);
    } else {
        assert(codes.drop_last() =~= codes.take(i));
    }
}

proof fn lemma_first_unknown(codes: Seq<Seq<char>>, i: int)
    requires
        0 <= i < codes.len(),
        forall|k: int| 0 <= k < i ==> code_group(#[trigger] codes[k]) is Some,
        code_group(codes[i]) is None,
    ensures
        first_unknown_code(codes) == codes[i],
    decreases i,
{
    if i > 0 {
        assert forall|k: int| 0 <= k < i - 1 implies code_group(#[trigger] codes.drop_first()[k]) is Some by {
            assert(codes.drop_first()[k] == codes[k + 1]);
        }
        lemma_first_unknown(codes.drop_first(), i - 1);
    }
}

/// Joining selections is commutative, associative and idempotent; the
/// empty selection changes nothing, and the selection of every repair
/// absorbs any other.
pub proof fn lemma_selection_union_laws(a: ManifestFixSelection, b: ManifestFixSelection, c: ManifestFixSelection)
    ensures
        union_selection(a, b) == union_selection(b, a),
        union_selection(union_selection(a, b), c) == union_selection(a, union_selection(b, c)),
        union_selection(a, a) == a,
        union_selection(a, empty_selection()) == a,
        union_selection(a, group_selection(ManifestFixGroup::All)) == group_selection(ManifestFixGroup::All),
{
}

/// A code that is given again selects nothing more: the selection of codes
/// already includes the group of each of them.
pub proof fn lemma_codes_selection_repeat(codes: Seq<Seq<char>>, i: int)
    requires
        0 <= i < codes.len(),
        codes_selection(codes) is Some,
    ensures
        code_group(codes[i]) is Some,
        union_selection(codes_selection(codes)->0, group_selection(code_group(codes[i])->0)) == codes_selection(codes)->0,
        codes_selection(codes.push(codes[i])) == codes_selection(codes),
    decreases codes.len(),
{
    let init = codes.drop_last();
    assert(codes.push(codes[i]).drop_last() =~= codes);
    if i < codes.len() - 1 {
        assert(init[i] == codes[i]);
        lemma_codes_selection_repeat(init, i);
    }
}

impl ManifestFixSelection {
    /// The selection of one group.
    pub fn from_group(group: ManifestFixGroup) -> (s: ManifestFixSelection)
        ensures
            s == group_selection(group),
    {
        ManifestFixSelection { repairs: group.repairs(), repair_child_manifests: group.repairs_child_manifests() }
    }

    /// Adds a group to the selection.
    pub fn add_group(&mut self, group: ManifestFixGroup)
        ensures
            *final(self) == union_selection(*old(self), group_selection(group)),
    {
        let repairs = group.repairs();
        self.repairs.workspace_shape = self.repairs.workspace_shape || repairs.workspace_shape;
        self.repairs.workspace_dependencies = self.repairs.workspace_dependencies || repairs.workspace_dependencies;
        self.repairs.facade_wiring = self.repairs.facade_wiring || repairs.facade_wiring;
        self.repairs.package_metadata = self.repairs.package_metadata || repairs.package_metadata;
        self.repair_child_manifests = self.repair_child_manifests || group.repairs_child_manifests();
    }

    /// The selection that `codes` give: every repair where there are none,
    /// else the union of their groups; the first unknown code is refused.
    pub fn from_codes(codes: &Vec<String>) -> (r: Result<ManifestFixSelection, String>)
        ensures
            codes@.len() == 0 ==> r == Ok::<ManifestFixSelection, String>(group_selection(ManifestFixGroup::All)),
            codes@.len() > 0 ==> match r {
                Ok(s) => codes_selection(crate::text::views(codes@)) == Some(s),
                Err(e) => codes_selection(crate::text::views(codes@)) is None
                    && e@ == unknown_fix_code_message(first_unknown_code(crate::text::views(codes@))),
            },
    {
        if codes.len() == 0 {
            return Ok(ManifestFixSelection::from_group(ManifestFixGroup::All));
        }
        let ghost cv = crate::text::views(codes@);
        let mut selection = ManifestFixSelection {
            repairs: FacadeManifestRepairs {
                workspace_shape: false,
                workspace_dependencies: false,
                facade_wiring: false,
                package_metadata: false,
            },
            repair_child_manifests: false,
        };
        let mut i: usize = 0;
        assert(cv.take(0) =~= Seq::<Seq<char>>::empty());
        while i < codes.len()
            invariant
                i <= codes.len(),
                cv == crate::text::views(codes@),
                codes_selection(cv.take(i as int)) == Some(selection),
                forall|k: int| 0 <= k < i ==> code_group(#[trigger] cv[k]) is Some,
            decreases codes.len() - i,
        {
            assert(cv.take(i + 1).drop_last() =~= cv.take(i as int));
            assert(cv.take(i + 1).last() == codes@[i as int]@);
            match ManifestFixGroup::from_code(codes[i].as_str()) {
                Ok(group) => {
                    selection.add_group(group);
                },
                Err(e) => {
                    proof {
                        lemma_codes_selection_prefix(cv, i as int);
                        lemma_first_unknown(cv, i as int);
                    }
                    return Err(e);
                },
            }
            i = i + 1;
        }
        assert(cv.take(i as int) =~= cv);
        Ok(selection)
    }
}

/// `s` without its trailing line breaks.
pub open spec fn strip_trailing_newlines(s: Seq<char>) -> Seq<char>
    decreases s.len(),
{
    if s.len() > 0 && s.last() == '\n' {
        strip_trailing_newlines(s.drop_last())
    } else {
        s
    }
}

/// Ends `contents` in exactly one line break: repeated trailing line breaks
/// are reduced to one, and a missing one is added.
pub fn normalize_trailing_newline(contents: String) -> (r: String)
    ensures
        r@ == strip_trailing_newlines(contents@) + seq!['\n'],
{
    let chars = crate::text::chars_of(contents.as_str());
    let mut end: usize = chars.len();
    assert(chars@.take(end as int) =~= contents@);
    while end > 0 && chars[end - 1] == '\n'
        invariant
            end <= chars.len(),
            chars@ == contents@,
            strip_trailing_newlines(contents@) == strip_trailing_newlines(chars@.take(end as int)),
        decreases end,
    {
        assert(chars@.take(end as int).drop_last() =~= chars@.take(end - 1));
        end = end - 1;
    }
    let mut out = String::new();
    let mut i: usize = 0;
    while i < end
        invariant
            i <= end <= chars.len(),
            out@ == chars@.take(i as int),
        decreases end - i,
    {
        push_char(&mut out, chars[i]);
        assert(chars@.take(i + 1) =~= chars@.take(i as int).push(chars@[i as int]));
        i = i + 1;
    }
    push_char(&mut out, '\n');
    out
}

/// Records the outcome of repairing one file: unchanged where the rendered
/// contents, normalised to end in one line break, equal the current ones; else a
/// planned change at `path`.
pub fn record_file_result(plan: &mut FacadeFixPlan, path: String, created: bool, original: &str, rendered: String)
    requires
        old(plan).files_unchanged < usize::MAX,
    ensures
        final(plan).root == old(plan).root,
        final(plan).files_inspected == old(plan).files_inspected,
        strip_trailing_newlines(rendered@) + seq!['\n'] == original@ ==> {
            &&& final(plan).files_unchanged == old(plan).files_unchanged + 1
            &&& final(plan).changes@ == old(plan).changes@
        },
        strip_trailing_newlines(rendered@) + seq!['\n'] != original@ ==> {
            &&& final(plan).files_unchanged == old(plan).files_unchanged
            &&& final(plan).changes@.len() == old(plan).changes@.len() + 1
            &&& final(plan).changes@.drop_last() == old(plan).changes@
            &&& final(plan).changes@.last().path@ == path@
            &&& final(plan).changes@.last().contents@ == strip_trailing_newlines(rendered@) + seq!['\n']
            &&& final(plan).changes@.last().created == created
        },
{
    let rendered = normalize_trailing_newline(rendered);
    if str_eq(rendered.as_str(), original) {
        plan.files_unchanged = plan.files_unchanged + 1;
        return;
    }
    plan.changes.push(PlannedFileChange { path, contents: rendered, created });
}

/// The refusal of a facade directory whose name does not start with `use-`.
pub open spec fn facade_name_message(name: Seq<char>) -> Seq<char> {
    "facade directory name `"@ + name + "` must start with `use-`"@
}

/// The facade name of a repair: the facade directory's name, which must
/// start with `use-`.
pub fn checked_facade_name(name: &str) -> (r: Result<String, String>)
    ensures
        match r {
            Ok(n) => n@ == name@ && is_prefix("use-"@, name@),
            Err(e) => !is_prefix("use-"@, name@) && e@ == facade_name_message(name@),
        },
{
    if !starts_with(name, "use-") {
        return Err(cat3("facade directory name `", name, "` must start with `use-`"));
    }
    Ok(name.to_owned())
}

/// Whether a path text has a `..` component: two dots between separators
/// or the ends of the text.
pub open spec fn has_parent_component(path: Seq<char>) -> bool {
    exists|i: int| #[trigger] parent_component_at(path, i)
}

/// Whether a `..` component starts at position `i` of a path text.
pub open spec fn parent_component_at(path: Seq<char>, i: int) -> bool {
    0 <= i && i + 2 <= path.len() && path[i] == '.' && path[i + 1] == '.' && (i == 0 || path[i - 1] == '/')
        && (i + 2 == path.len() || path[i + 2] == '/')
}

/// The refusal of an unusable planned path, if any: an empty path, an
/// absolute one, or one with a `..` component.
pub open spec fn relative_path_problem(path: Seq<char>) -> Option<Seq<char>> {
    if path.len() == 0 {
        Some("planned repair contains an empty path"@)
    } else if path[0] == '/' {
        Some("planned repair path `"@ + path + "` must be relative to the facade root"@)
    } else if has_parent_component(path) {
        Some("planned repair path `"@ + path + "` cannot contain `..`"@)
    } else {
        None
    }
}

/// Checks that a planned path stays inside the facade root.
pub fn validate_relative_path(path: &str) -> (r: Result<(), String>)
    ensures
        match r {
            Ok(()) => relative_path_problem(path@) is None,
            Err(e) => relative_path_problem(path@) == Some(e@),
        },
{
    let c = crate::text::chars_of(path);
    if c.len() == 0 {
        return Err(String::from_str("planned repair contains an empty path"));
    }
    if c[0] == '/' {
        return Err(cat3("planned repair path `", path, "` must be relative to the facade root"));
    }
    let mut i: usize = 0;
    while i < c.len()
        invariant
            i <= c.len(),
            c@ == path@,
            path@.len() > 0,
            path@[0] != '/',
            forall|k: int| 0 <= k < i ==> !#[trigger] parent_component_at(path@, k),
        decreases c.len() - i,
    {
        if i + 1 < c.len() && c[i] == '.' && c[i + 1] == '.' && (i == 0 || c[i - 1] == '/') && (i + 2 == c.len() || c[i + 2] == '/') {
            assert(parent_component_at(path@, i as int));
            assert(has_parent_component(path@));
            return Err(cat3("planned repair path `", path, "` cannot contain `..`"));
        }
        i = i + 1;
    }
    proof {
        if has_parent_component(path@) {
            let k = choose|k: int| #[trigger] parent_component_at(path@, k);
            assert(k < i);
        }
    }
    Ok(())
}

/// The refusal of a plan, if any: the first change with an unusable path or
/// empty contents.
pub open spec fn plan_problem(changes: Seq<PlannedFileChange>) -> Option<Seq<char>>
    decreases changes.len(),
{
    if changes.len() == 0 {
        None
    } else {
        match relative_path_problem(changes[0].path@) {
            Some(m) => Some(m),
            None => if changes[0].contents@.len() == 0 {
                Some("planned repair for `"@ + changes[0].path@ + "` has empty contents"@)
            } else {
                plan_problem(changes.drop_first())
            },
        }
    }
}

/// Checks every planned change of a plan.
pub fn validate_plan(plan: &FacadeFixPlan) -> (r: Result<(), String>)
    ensures
        match r {
            Ok(()) => plan_problem(plan.changes@) is None,
            Err(e) => plan_problem(plan.changes@) == Some(e@),
        },
{
    let mut i: usize = 0;
    assert(plan.changes@.skip(0) =~= plan.changes@);
    while i < plan.changes.len()
        invariant
            i <= plan.changes.len(),
            plan_problem(plan.changes@) == plan_problem(plan.changes@.skip(i as int)),
        decreases plan.changes.len() - i,
    {
        let ghost rest = plan.changes@.skip(i as int);
        assert(rest[0] == plan.changes@[i as int]);
        assert(rest.drop_first() =~= plan.changes@.skip(i + 1));
        let change = &plan.changes[i];
        match validate_relative_path(change.path.as_str()) {
            Ok(()) => {},
            Err(e) => {
                return Err(e);
            },
        }
        if change.contents.as_str().unicode_len() == 0 {
            return Err(cat3("planned repair for `", change.path.as_str(), "` has empty contents"));
        }
        i = i + 1;
    }
    assert(plan.changes@.skip(i as int) =~= Seq::<PlannedFileChange>::empty());
    Ok(())
}

/// Whether `s` reports the plan's changes, each written exactly when the
/// mode writes files.
pub open spec fn summary_of(s: FacadeFixSummary, plan: FacadeFixPlan, mode: FixMode) -> bool {
    &&& s.files_inspected == plan.files_inspected
    &&& s.files_changed == plan.changes@.len()
    &&& s.files_unchanged == plan.files_unchanged
    &&& s.files_created == count_created(plan.changes@)
    &&& s.changes@.len() == plan.changes@.len()
    &&& forall|i: int| 0 <= i < s.changes@.len() ==> {
        &&& (#[trigger] s.changes@[i]).path@ == plan.changes@[i].path@
        &&& s.changes@[i].created == plan.changes@[i].created
        &&& s.changes@[i].wrote == (mode == FixMode::Write)
    }
}

/// Checks a plan and summarises what applying it in `mode` does; the files
/// themselves are written by the caller when the mode writes.
pub fn apply_plan(plan: &FacadeFixPlan, mode: FixMode) -> (r: Result<FacadeFixSummary, String>)
    ensures
        match r {
            Ok(s) => plan_problem(plan.changes@) is None && summary_of(s, *plan, mode),
            Err(e) => plan_problem(plan.changes@) == Some(e@),
        },
{
    match validate_plan(plan) {
        Ok(()) => {},
        Err(e) => {
            return Err(e);
        },
    }
    let writes = mode.writes_files();
    let mut changes: Vec<FacadeFixChange> = Vec::new();
    let mut i: usize = 0;
    while i < plan.changes.len()
        invariant
            i <= plan.changes.len(),
            writes == (mode == FixMode::Write),
            changes@.len() == i,
            forall|k: int| 0 <= k < i ==> {
                &&& (#[trigger] changes@[k]).path@ == plan.changes@[k].path@
                &&& changes@[k].created == plan.changes@[k].created
                &&& changes@[k].wrote == writes
            },
        decreases plan.changes.len() - i,
    {
        let change = &plan.changes[i];
        changes.push(FacadeFixChange { path: change.path.clone(), created: change.created, wrote: writes });
        i = i + 1;
    }
    let created = plan.files_created();
    Ok(FacadeFixSummary {
        files_inspected: plan.files_inspected,
        files_changed: plan.changes.len(),
        files_unchanged: plan.files_unchanged,
        files_created: created,
        changes,
    })
}



proof fn lemma_not_listed_facade_wiring_codes(c: FacadeIssueCode)
    requires
        code_bucket(c) == FacadeIssueBucket::PackageShape,
    ensures
        !facade_wiring_codes().contains(code_id(c)),
{
    lemma_package_shape_id_not_group_text(c);
    if facade_wiring_codes().contains(code_id(c)) {
        let k = choose|k: int| 0 <= k < facade_wiring_codes().len() && facade_wiring_codes()[k] == code_id(c);
        assert(facade_wiring_codes().len() == 12);
        if k == 0 {
            } else if k == 1 {
                lemma_code_ids_unique(c, FacadeIssueCode::MissingFacadeDependencies);
            } else if k == 2 {
                lemma_code_ids_unique(c, FacadeIssueCode::MissingFacadeChildDependency);
            } else if k == 3 {
                lemma_code_ids_unique(c, FacadeIssueCode::InvalidFacadeChildDependency);
            } else if k == 4 {
                lemma_code_ids_unique(c, FacadeIssueCode::MissingFacadeChildDependencyOptional);
            } else if k == 5 {
                lemma_code_ids_unique(c, FacadeIssueCode::MissingFacadeFeatures);
            } else if k == 6 {
                lemma_code_ids_unique(c, FacadeIssueCode::InvalidFacadeDefaultFeatures);
            } else if k == 7 {
                lemma_code_ids_unique(c, FacadeIssueCode::MissingFacadeDefaultFeatures);
            } else if k == 8 {
                lemma_code_ids_unique(c, FacadeIssueCode::MissingFacadeFullFeature);
            } else if k == 9 {
                lemma_code_ids_unique(c, FacadeIssueCode::MissingFullFeatureMember);
            } else if k == 10 {
                lemma_code_ids_unique(c, FacadeIssueCode::MissingFacadeChildFeature);
            } else if k == 11 {
                lemma_code_ids_unique(c, FacadeIssueCode::InvalidFacadeChildFeature);
            }
    }
}

proof fn lemma_not_listed_workspace_shape_codes(c: FacadeIssueCode)
    requires
        code_bucket(c) == FacadeIssueBucket::PackageShape,
    ensures
        !workspace_shape_codes().contains(code_id(c)),
{
    lemma_package_shape_id_not_group_text(c);
    if workspace_shape_codes().contains(code_id(c)) {
        let k = choose|k: int| 0 <= k < workspace_shape_codes().len() && workspace_shape_codes()[k] == code_id(c);
        assert(workspace_shape_codes().len() == 15);
        if k == 0 {
            } else if k == 1 {
                lemma_code_ids_unique(c, FacadeIssueCode::MissingStandardWorkspaceMember);
            } else if k == 2 {
                lemma_code_ids_unique(c, FacadeIssueCode::NonStandardWorkspaceMembers);
            } else if k == 3 {
                lemma_code_ids_unique(c, FacadeIssueCode::MissingWorkspace);
            } else if k == 4 {
                lemma_code_ids_unique(c, FacadeIssueCode::MissingWorkspaceMembers);
            } else if k == 5 {
                lemma_code_ids_unique(c, FacadeIssueCode::InvalidWorkspaceMembers);
            } else if k == 6 {
                lemma_code_ids_unique(c, FacadeIssueCode::MissingWorkspaceResolver);
            } else if k == 7 {
            } else if k == 8 {
                lemma_code_ids_unique(c, FacadeIssueCode::MissingWorkspacePackage);
            } else if k == 9 {
                lemma_code_ids_unique(c, FacadeIssueCode::MissingWorkspacePackageField);
            } else if k == 10 {
                lemma_code_ids_unique(c, FacadeIssueCode::InvalidWorkspaceRepository);
            } else if k == 11 {
                lemma_code_ids_unique(c, FacadeIssueCode::MissingWorkspaceCategories);
            } else if k == 12 {
                lemma_code_ids_unique(c, FacadeIssueCode::MissingWorkspaceUnsafeCodePolicy);
            } else if k == 13 {
                lemma_code_ids_unique(c, FacadeIssueCode::InvalidWorkspaceUnsafeCodePolicy);
            } else if k == 14 {
                lemma_code_ids_unique(c, FacadeIssueCode::MissingWorkspaceClippyLints);
            }
    }
}

proof fn lemma_not_listed_workspace_dependency_codes(c: FacadeIssueCode)
    requires
        code_bucket(c) == FacadeIssueBucket::PackageShape,
    ensures
        !workspace_dependency_codes().contains(code_id(c)),
{
    lemma_package_shape_id_not_group_text(c);
    if workspace_dependency_codes().contains(code_id(c)) {
        let k = choose|k: int| 0 <= k < workspace_dependency_codes().len() && workspace_dependency_codes()[k] == code_id(c);
        assert(workspace_dependency_codes().len() == 7);
        if k == 0 {
            } else if k == 1 {
                lemma_code_ids_unique(c, FacadeIssueCode::MissingWorkspaceDependencies);
            } else if k == 2 {
                lemma_code_ids_unique(c, FacadeIssueCode::MissingWorkspaceDependency);
            } else if k == 3 {
            } else if k == 4 {
                lemma_code_ids_unique(c, FacadeIssueCode::InvalidWorkspaceDependencyPath);
            } else if k == 5 {
                lemma_code_ids_unique(c, FacadeIssueCode::MissingWorkspaceDependencyPath);
            } else if k == 6 {
                lemma_code_ids_unique(c, FacadeIssueCode::MissingWorkspaceDependencyVersion);
            }
    }
}

/// A repair code of a package-shape issue, where it selects any repairs,
/// selects the package metadata repairs: given alone it repairs the package
/// metadata and every child manifest, and nothing of the workspace or the
/// facade wiring.
pub proof fn lemma_package_codes_select_package_metadata(c: FacadeIssueCode)
    requires
        code_bucket(c) == FacadeIssueBucket::PackageShape,
        code_group(code_id(c)) is Some,
    ensures
        code_group(code_id(c)) == Some(ManifestFixGroup::PackageMetadata),
        codes_selection(seq![code_id(c)]) matches Some(s) && s.repairs.package_metadata && s.repair_child_manifests
            && !s.repairs.workspace_shape && !s.repairs.workspace_dependencies && !s.repairs.facade_wiring,
{
    lemma_package_shape_id_not_group_text(c);
    lemma_not_listed_facade_wiring_codes(c);
    lemma_not_listed_workspace_shape_codes(c);
    lemma_not_listed_workspace_dependency_codes(c);
    let one = seq![code_id(c)];
    assert(one.drop_last() =~= Seq::<Seq<char>>::empty());
    assert(codes_selection(one.drop_last()) == Some(empty_selection()));
    assert(one.last() == code_id(c));
}


/// Every code of an issue in a `[package]` field that the package metadata
/// repair sets (the field list, `publish`, the inherited fields, the home
/// and documentation pages, the readme, docs.rs and `lints`) selects that
/// repair.
pub proof fn lemma_package_field_codes_select_package_metadata(c: FacadeIssueCode)
    requires
        c == FacadeIssueCode::MissingPackageField || c == FacadeIssueCode::MissingPackagePublish || c == FacadeIssueCode::MissingPackageInheritedField || c == FacadeIssueCode::PackageFieldNotInherited || c == FacadeIssueCode::InvalidPackageHomepage || c == FacadeIssueCode::InvalidPackageDocumentation || c == FacadeIssueCode::MissingPackageReadmeFile || c == FacadeIssueCode::MissingDocsRsAllFeatures || c == FacadeIssueCode::InvalidDocsRsAllFeatures || c == FacadeIssueCode::MissingLintsWorkspace,
    ensures
        code_group(code_id(c)) == Some(ManifestFixGroup::PackageMetadata),
{
    assert(code_bucket(c) == FacadeIssueBucket::PackageShape);
    lemma_package_shape_id_not_group_text(c);
    lemma_not_listed_facade_wiring_codes(c);
    lemma_not_listed_workspace_shape_codes(c);
    lemma_not_listed_workspace_dependency_codes(c);
    match c {
        FacadeIssueCode::MissingPackageField => {
            assert(package_metadata_codes()[1] == code_id(c));
        },
        FacadeIssueCode::MissingPackagePublish => {
            assert(package_metadata_codes()[2] == code_id(c));
        },
        FacadeIssueCode::MissingPackageInheritedField => {
            assert(package_metadata_codes()[6] == code_id(c));
        },
        FacadeIssueCode::PackageFieldNotInherited => {
            assert(package_metadata_codes()[7] == code_id(c));
        },
        FacadeIssueCode::InvalidPackageHomepage => {
            assert(package_metadata_codes()[8] == code_id(c));
        },
        FacadeIssueCode::InvalidPackageDocumentation => {
            assert(package_metadata_codes()[9] == code_id(c));
        },
        FacadeIssueCode::MissingPackageReadmeFile => {
            assert(package_metadata_codes()[10] == code_id(c));
        },
        FacadeIssueCode::MissingDocsRsAllFeatures => {
            assert(package_metadata_codes()[11] == code_id(c));
        },
        FacadeIssueCode::InvalidDocsRsAllFeatures => {
            assert(package_metadata_codes()[12] == code_id(c));
        },
        FacadeIssueCode::MissingLintsWorkspace => {
            assert(package_metadata_codes()[13] == code_id(c));
        },
        _ => {},
    }
}

} // verus!
