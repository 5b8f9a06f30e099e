//! Checks of the `[workspace]` table of a facade's root manifest and of the
//! facade package's dependency and feature wiring.

use vstd::prelude::*;

use crate::codes::FacadeIssueCode;
use crate::manifest_model::{err, issue_views, push_error, push_warning, warn, IssueView, ManifestIssue};
use crate::manifest_package::{
    category_issues, collect_category_strings, collected_categories, contains_text, string_items,
    validate_categories,
};
use crate::text::{
    cat2, cat3, cat4, cat5, chars_of, is_prefix, join, join_seq, starts_with, str_eq, trim, trimmed,
    views,
};
use crate::toml_tree::{get, get_array, get_bool, get_str, get_table, has_key, is_workspace_true, TomlTable, TomlValue};

verus! {

/// What the analysis knows of one child crate's manifest.
#[derive(Debug)]
pub struct CrateManifestInfo {
    pub dir_name: String,
    pub package_name: Option<String>,
    pub version: Option<String>,
}

/// The dependency name of a crate: its package name, else its directory name.
pub open spec fn dep_name(i: CrateManifestInfo) -> Seq<char> {
    match i.package_name {
        Some(p) => p@,
        None => i.dir_name@,
    }
}

impl CrateManifestInfo {
    /// The dependency name of the crate: its package name, else its
    /// directory name.
    pub fn dependency_name(&self) -> (name: &str)
        ensures
            name@ == dep_name(*self),
    {
        match &self.package_name {
            Some(p) => p.as_str(),
            None => self.dir_name.as_str(),
        }
    }
}

/// The string items of an array value.
pub fn array_strings(items: &Vec<TomlValue>) -> (strings: Vec<String>)
    ensures
        views(strings@) == string_items(items@),
{
    let mut strings: Vec<String> = Vec::new();
    let mut i: usize = 0;
    while i < items.len()
        invariant
            i <= items.len(),
            views(strings@) == string_items(items@.take(i as int)),
        decreases items.len() - i,
    {
        assert(items@.take(i + 1).drop_last() =~= items@.take(i as int));
        assert(items@.take(i + 1).last() == items@[i as int]);
        if let TomlValue::String(s) = &items[i] {
            let ghost before = views(strings@);
            strings.push(s.clone());
            assert(views(strings@) =~= before + seq![s@]);
        }
        assert(views(strings@) =~= string_items(items@.take(i + 1)));
        i = i + 1;
    }
    assert(items@.take(i as int) =~= items@);
    strings
}

/// The issues of `[workspace].resolver`.
pub open spec fn resolver_issues(ws: TomlTable) -> Seq<IssueView> {
    match get_str(ws, "resolver"@) {
        Some(r) => if r == "3"@ {
            seq![]
        } else {
            seq![warn(FacadeIssueCode::InvalidWorkspaceResolver, "expected [workspace].resolver = \"3\", found \""@ + r + "\""@)]
        },
        None => seq![warn(FacadeIssueCode::MissingWorkspaceResolver, "missing [workspace].resolver"@)],
    }
}

/// The issues of the shape of `[workspace].members`.
pub open spec fn members_shape_issues(ws: TomlTable) -> Seq<IssueView> {
    match get(ws, "members"@) {
        Some(TomlValue::Array(_)) => seq![],
        Some(_) => seq![warn(FacadeIssueCode::InvalidWorkspaceMembers, "expected [workspace].members to be an array"@)],
        None => seq![warn(FacadeIssueCode::MissingWorkspaceMembers, "missing [workspace].members"@)],
    }
}

/// Whether the strings of `s`, as a set, have exactly one element.
pub open spec fn one_distinct(s: Seq<Seq<char>>) -> bool {
    s.len() > 0 && forall|i: int| 0 <= i < s.len() ==> #[trigger] s[i] == s[0]
}

/// Whether the strings of `strs`, as a set, have exactly one element.
pub fn has_one_distinct(strs: &Vec<String>) -> (r: bool)
    ensures
        r == one_distinct(views(strs@)),
{
    let ghost sv = views(strs@);
    if strs.len() == 0 {
        return false;
    }
    let mut i: usize = 1;
    while i < strs.len()
        invariant
            sv == views(strs@),
            strs.len() > 0,
            1 <= i <= strs.len(),
            forall|k: int| 0 <= k < i ==> #[trigger] sv[k] == sv[0],
        decreases strs.len() - i,
    {
        if !str_eq(strs[i].as_str(), strs[0].as_str()) {
            assert(sv[i as int] != sv[0]);
            return false;
        }
        i = i + 1;
    }
    true
}

/// The issues of the contents of `[workspace].members`.
pub open spec fn members_issues(ws: TomlTable) -> Seq<IssueView> {
    match get_array(ws, "members"@) {
        None => seq![],
        Some(items) => {
            let strs = string_items(items);
            (if strs.contains("crates/*"@) {
                seq![]
            } else {
                seq![warn(FacadeIssueCode::MissingStandardWorkspaceMember, "expected [workspace].members to include `crates/*`"@)]
            }) + (if one_distinct(strs) {
                seq![]
            } else {
                seq![warn(FacadeIssueCode::NonStandardWorkspaceMembers, "expected [workspace].members to be exactly [\"crates/*\"]"@)]
            })
        },
    }
}

/// Checks the resolver and the members of `[workspace]`.
pub fn validate_workspace_members(ws: &TomlTable, issues: &mut Vec<ManifestIssue>)
    ensures
        issue_views(final(issues)@) == issue_views(old(issues)@) + resolver_issues(*ws) + members_shape_issues(*ws) + members_issues(*ws),
{
    let ghost start = issue_views(issues@);
    match ws.get_str("resolver") {
        Some(r) => {
            if !str_eq(r.as_str(), "3") {
                push_warning(issues, FacadeIssueCode::InvalidWorkspaceResolver, cat3("expected [workspace].resolver = \"3\", found \"", r.as_str(), "\""));
            }
        },
        None => {
            push_warning(issues, FacadeIssueCode::MissingWorkspaceResolver, "missing [workspace].resolver".to_owned());
        },
    }
    match ws.get("members") {
        Some(TomlValue::Array(_)) => {},
        Some(_) => {
            push_warning(issues, FacadeIssueCode::InvalidWorkspaceMembers, "expected [workspace].members to be an array".to_owned());
        },
        None => {
            push_warning(issues, FacadeIssueCode::MissingWorkspaceMembers, "missing [workspace].members".to_owned());
        },
    }
    let ghost mid = issue_views(issues@);
    if let Some(items) = ws.get_array("members") {
        let strs = array_strings(items);
        if !contains_text(&strs, "crates/*") {
            push_warning(issues, FacadeIssueCode::MissingStandardWorkspaceMember, "expected [workspace].members to include `crates/*`".to_owned());
        }
        let one = has_one_distinct(&strs);
        if !one {
            push_warning(issues, FacadeIssueCode::NonStandardWorkspaceMembers, "expected [workspace].members to be exactly [\"crates/*\"]".to_owned());
        }
    }
    assert(issue_views(issues@) =~= start + resolver_issues(*ws) + members_shape_issues(*ws) + members_issues(*ws));
}

/// The repository URL of a facade.
pub open spec fn facade_repository(facade_name: Seq<char>) -> Seq<char> {
    "https://github.com/RustUse/"@ + facade_name
}

/// The issues of `[workspace.package].repository`.
pub open spec fn repository_issues(wp: TomlTable, facade_name: Seq<char>) -> Seq<IssueView> {
    match get_str(wp, "repository"@) {
        Some(actual) => if actual == facade_repository(facade_name) {
            seq![]
        } else {
            seq![warn(
                FacadeIssueCode::InvalidWorkspaceRepository,
                "expected [workspace.package].repository = `"@ + facade_repository(facade_name) + "`, found `"@ + actual + "`"@,
            )]
        },
        None => seq![],
    }
}

/// Checks that the workspace repository is the facade's RustUse repository.
pub fn validate_workspace_repository(wp: &TomlTable, facade_name: &str, issues: &mut Vec<ManifestIssue>)
    ensures
        issue_views(final(issues)@) == issue_views(old(issues)@) + repository_issues(*wp, facade_name@),
{
    let ghost start = issue_views(issues@);
    let expected = cat2("https://github.com/RustUse/", facade_name);
    if let Some(actual) = wp.get_str("repository") {
        if !str_eq(actual.as_str(), expected.as_str()) {
            push_warning(
                issues,
                FacadeIssueCode::InvalidWorkspaceRepository,
                cat5("expected [workspace.package].repository = `", expected.as_str(), "`, found `", actual.as_str(), "`"),
            );
        }
    }
    assert(issue_views(issues@) =~= start + repository_issues(*wp, facade_name@));
}

/// The fields `[workspace.package]` must set.
pub open spec fn required_workspace_package_fields() -> Seq<Seq<char>> {
    seq!["authors"@, "categories"@, "edition"@, "license"@, "repository"@, "rust-version"@]
}

/// The issues for the fields of `fields` that `[workspace.package]` lacks.
pub open spec fn missing_workspace_field_issues(wp: TomlTable, fields: Seq<Seq<char>>) -> Seq<IssueView>
    decreases fields.len(),
{
    if fields.len() == 0 {
        seq![]
    } else {
        missing_workspace_field_issues(wp, fields.drop_last()) + if has_key(wp, fields.last()) {
            seq![]
        } else {
            seq![warn(FacadeIssueCode::MissingWorkspacePackageField, "missing [workspace.package]."@ + fields.last())]
        }
    }
}

/// Reports every required `[workspace.package]` field that is missing.
pub fn validate_workspace_package_fields(wp: &TomlTable, issues: &mut Vec<ManifestIssue>)
    ensures
        issue_views(final(issues)@) == issue_views(old(issues)@) + missing_workspace_field_issues(*wp, required_workspace_package_fields()),
{
    let ghost start = issue_views(issues@);
    let fields = vec!["authors", "categories", "edition", "license", "repository", "rust-version"];
    let ghost all = required_workspace_package_fields();
    assert(fields@.map_values(|s: &str| s@) =~= all);
    let mut i: usize = 0;
    while i < fields.len()
        invariant
            fields@.map_values(|s: &str| s@) == all,
            i <= fields.len(),
            issue_views(issues@) == start + missing_workspace_field_issues(*wp, all.take(i as int)),
        decreases fields.len() - i,
    {
        let field = fields[i];
        assert(all.take(i + 1).drop_last() =~= all.take(i as int));
        assert(all.take(i + 1).last() == field@);
        if !wp.contains_key(field) {
            push_warning(issues, FacadeIssueCode::MissingWorkspacePackageField, cat2("missing [workspace.package].", field));
        }
        assert(issue_views(issues@) =~= start + missing_workspace_field_issues(*wp, all.take(i + 1)));
        i = i + 1;
    }
    assert(all.take(i as int) =~= all);
}

/// The issue of one entry of `[workspace.dependencies]` about its shape and
/// version.
pub open spec fn dependency_version_issue(name: Seq<char>, dep: TomlValue) -> Seq<IssueView> {
    match dep {
        TomlValue::Table(t) => match get(t, "version"@) {
            Some(TomlValue::String(s)) => if trim(s@).len() > 0 {
                seq![]
            } else {
                seq![warn(
                    FacadeIssueCode::InvalidWorkspaceDependencyVersion,
                    "expected [workspace.dependencies]."@ + name + ".version to be a non-empty string"@,
                )]
            },
            Some(_) => seq![warn(
                FacadeIssueCode::InvalidWorkspaceDependencyVersion,
                "expected [workspace.dependencies]."@ + name + ".version to be a non-empty string"@,
            )],
            None => seq![warn(FacadeIssueCode::MissingWorkspaceDependencyVersion, "missing [workspace.dependencies]."@ + name + ".version"@)],
        },
        _ => seq![warn(
            FacadeIssueCode::InvalidWorkspaceDependencyShape,
            "expected [workspace.dependencies]."@ + name + " to be an inline table with version"@,
        )],
    }
}

/// The shape and version issues of every workspace dependency, in order.
pub open spec fn dependency_version_issues(entries: Seq<(String, TomlValue)>) -> Seq<IssueView>
    decreases entries.len(),
{
    if entries.len() == 0 {
        seq![]
    } else {
        dependency_version_issues(entries.drop_last()) + dependency_version_issue(entries.last().0@, entries.last().1)
    }
}

/// Checks that every workspace dependency is a table with a non-empty
/// version.
pub fn validate_all_workspace_dependency_versions(deps: &TomlTable, issues: &mut Vec<ManifestIssue>)
    ensures
        issue_views(final(issues)@) == issue_views(old(issues)@) + dependency_version_issues(deps.entries@),
{
    let ghost start = issue_views(issues@);
    let ghost all = deps.entries@;
    let mut i: usize = 0;
    while i < deps.entries.len()
        invariant
            all == deps.entries@,
            i <= deps.entries.len(),
            issue_views(issues@) == start + dependency_version_issues(all.take(i as int)),
        decreases deps.entries.len() - i,
    {
        assert(all.take(i + 1).drop_last() =~= all.take(i as int));
        assert(all.take(i + 1).last() == all[i as int]);
        let name = deps.entries[i].0.as_str();
        match &deps.entries[i].1 {
            TomlValue::Table(t) => match t.get("version") {
                Some(TomlValue::String(s)) => {
                    let trimmed_version = trimmed(s.as_str());
                    if trimmed_version.as_str().is_empty() {
                        push_warning(issues, FacadeIssueCode::InvalidWorkspaceDependencyVersion, cat3("expected [workspace.dependencies].", name, ".version to be a non-empty string"));
                    }
                },
                Some(_) => {
                    push_warning(issues, FacadeIssueCode::InvalidWorkspaceDependencyVersion, cat3("expected [workspace.dependencies].", name, ".version to be a non-empty string"));
                },
                None => {
                    push_warning(issues, FacadeIssueCode::MissingWorkspaceDependencyVersion, cat3("missing [workspace.dependencies].", name, ".version"));
                },
            },
            _ => {
                push_warning(issues, FacadeIssueCode::InvalidWorkspaceDependencyShape, cat3("expected [workspace.dependencies].", name, " to be an inline table with version"));
            },
        }
        assert(issue_views(issues@) =~= start + dependency_version_issues(all.take(i + 1)));
        i = i + 1;
    }
    assert(all.take(i as int) =~= all);
}

/// The issues of the workspace dependency that one child crate needs.
pub open spec fn crate_dependency_issue(deps: TomlTable, info: CrateManifestInfo) -> Seq<IssueView> {
    let dn = dep_name(info);
    let expected = "crates/"@ + info.dir_name@;
    match get(deps, dn) {
        None => seq![warn(FacadeIssueCode::MissingWorkspaceDependency, "missing [workspace.dependencies]."@ + dn)],
        Some(TomlValue::Table(t)) => (match get_str(t, "path"@) {
            Some(p) => if p == expected {
                seq![]
            } else {
                seq![warn(
                    FacadeIssueCode::InvalidWorkspaceDependencyPath,
                    "expected [workspace.dependencies]."@ + dn + ".path = `"@ + expected + "`, found `"@ + p + "`"@,
                )]
            },
            None => seq![warn(FacadeIssueCode::MissingWorkspaceDependencyPath, "missing [workspace.dependencies]."@ + dn + ".path"@)],
        }) + (match (info.version, get_str(t, "version"@)) {
            (Some(ev), Some(av)) => if av != ev@ {
                seq![warn(
                    FacadeIssueCode::MismatchedWorkspaceDependencyVersion,
                    "expected [workspace.dependencies]."@ + dn + ".version = `"@ + ev@ + "`, found `"@ + av + "`"@,
                )]
            } else {
                seq![]
            },
            _ => seq![],
        }),
        Some(_) => seq![warn(
            FacadeIssueCode::InvalidWorkspaceDependencyShape,
            "expected [workspace.dependencies]."@ + dn + " to be an inline table"@,
        )],
    }
}

/// The issues of the workspace dependencies that the child crates need.
pub open spec fn crate_dependency_issues(deps: TomlTable, infos: Seq<CrateManifestInfo>) -> Seq<IssueView>
    decreases infos.len(),
{
    if infos.len() == 0 {
        seq![]
    } else {
        crate_dependency_issues(deps, infos.drop_last()) + crate_dependency_issue(deps, infos.last())
    }
}

/// Checks the workspace dependency of one child crate: present, a table,
/// with the crate's path and, where both are known, its version.
fn check_crate_dependency(deps: &TomlTable, info: &CrateManifestInfo, issues: &mut Vec<ManifestIssue>)
    ensures
        issue_views(final(issues)@) == issue_views(old(issues)@) + crate_dependency_issue(*deps, *info),
{
    let ghost start = issue_views(issues@);
    let dn = info.dependency_name();
    let expected = cat2("crates/", info.dir_name.as_str());
    match deps.get(dn) {
        None => {
            push_warning(issues, FacadeIssueCode::MissingWorkspaceDependency, cat2("missing [workspace.dependencies].", dn));
        },
        Some(TomlValue::Table(t)) => {
            match t.get_str("path") {
                Some(p) => {
                    if !str_eq(p.as_str(), expected.as_str()) {
                        let tail = cat3("`, found `", p.as_str(), "`");
                        let message = cat5("expected [workspace.dependencies].", dn, ".path = `", expected.as_str(), tail.as_str());
                        assert(message@ =~= "expected [workspace.dependencies]."@ + dn@ + ".path = `"@ + expected@ + "`, found `"@ + p@ + "`"@);
                        push_warning(issues, FacadeIssueCode::InvalidWorkspaceDependencyPath, message);
                    }
                },
                None => {
                    push_warning(issues, FacadeIssueCode::MissingWorkspaceDependencyPath, cat3("missing [workspace.dependencies].", dn, ".path"));
                },
            }
            if let Some(ev) = &info.version {
                if let Some(av) = t.get_str("version") {
                    if !str_eq(av.as_str(), ev.as_str()) {
                        let tail = cat3("`, found `", av.as_str(), "`");
                        let message = cat5("expected [workspace.dependencies].", dn, ".version = `", ev.as_str(), tail.as_str());
                        assert(message@ =~= "expected [workspace.dependencies]."@ + dn@ + ".version = `"@ + ev@ + "`, found `"@ + av@ + "`"@);
                        push_warning(issues, FacadeIssueCode::MismatchedWorkspaceDependencyVersion, message);
                    }
                }
            }
        },
        Some(_) => {
            push_warning(issues, FacadeIssueCode::InvalidWorkspaceDependencyShape, cat3("expected [workspace.dependencies].", dn, " to be an inline table"));
        },
    }
    assert(issue_views(issues@) =~= start + crate_dependency_issue(*deps, *info));
}

/// Checks the workspace dependency of every child crate, in order.
pub fn validate_crate_workspace_dependencies(deps: &TomlTable, infos: &Vec<CrateManifestInfo>, issues: &mut Vec<ManifestIssue>)
    ensures
        issue_views(final(issues)@) == issue_views(old(issues)@) + crate_dependency_issues(*deps, infos@),
{
    let ghost start = issue_views(issues@);
    let mut i: usize = 0;
    while i < infos.len()
        invariant
            i <= infos.len(),
            issue_views(issues@) == start + crate_dependency_issues(*deps, infos@.take(i as int)),
        decreases infos.len() - i,
    {
        assert(infos@.take(i + 1).drop_last() =~= infos@.take(i as int));
        assert(infos@.take(i + 1).last() == infos@[i as int]);
        check_crate_dependency(deps, &infos[i], issues);
        assert(issue_views(issues@) =~= start + crate_dependency_issues(*deps, infos@.take(i + 1)));
        i = i + 1;
    }
    assert(infos@.take(i as int) =~= infos@);
}

/// The paths of the child crates as workspace dependencies.
pub open spec fn crate_paths(infos: Seq<CrateManifestInfo>) -> Seq<Seq<char>> {
    infos.map_values(|i: CrateManifestInfo| "crates/"@ + i.dir_name@)
}

/// The issue of a workspace dependency whose `crates/` path has no crate.
pub open spec fn orphan_issue(name: Seq<char>, dep: TomlValue, infos: Seq<CrateManifestInfo>) -> Seq<IssueView> {
    match dep {
        TomlValue::Table(t) => match get_str(t, "path"@) {
            Some(p) => if is_prefix("crates/"@, p) && !crate_paths(infos).contains(p) {
                seq![warn(
                    FacadeIssueCode::OrphanWorkspaceDependencyPath,
                    "[workspace.dependencies]."@ + name + ".path points to `"@ + p + "`, but no matching crate manifest was found"@,
                )]
            } else {
                seq![]
            },
            None => seq![],
        },
        _ => seq![],
    }
}

/// The orphan-path issues of every workspace dependency, in order.
pub open spec fn orphan_issues(entries: Seq<(String, TomlValue)>, infos: Seq<CrateManifestInfo>) -> Seq<IssueView>
    decreases entries.len(),
{
    if entries.len() == 0 {
        seq![]
    } else {
        orphan_issues(entries.drop_last(), infos) + orphan_issue(entries.last().0@, entries.last().1, infos)
    }
}

/// The workspace-dependency paths of the child crates.
fn crate_path_list(infos: &Vec<CrateManifestInfo>) -> (paths: Vec<String>)
    ensures
        views(paths@) == crate_paths(infos@),
{
    let mut paths: Vec<String> = Vec::new();
    let mut i: usize = 0;
    while i < infos.len()
        invariant
            i <= infos.len(),
            views(paths@) == crate_paths(infos@).take(i as int),
        decreases infos.len() - i,
    {
        let ghost before = views(paths@);
        let path = cat2("crates/", infos[i].dir_name.as_str());
        assert(crate_paths(infos@)[i as int] == path@);
        paths.push(path);
        assert(views(paths@) =~= before.push(crate_paths(infos@)[i as int]));
        assert(views(paths@) =~= crate_paths(infos@).take(i + 1));
        i = i + 1;
    }
    assert(crate_paths(infos@).take(i as int) =~= crate_paths(infos@));
    paths
}

/// Reports workspace dependencies whose `crates/` path matches no child
/// crate.
pub fn validate_orphan_workspace_dependency_paths(deps: &TomlTable, infos: &Vec<CrateManifestInfo>, issues: &mut Vec<ManifestIssue>)
    ensures
        issue_views(final(issues)@) == issue_views(old(issues)@) + orphan_issues(deps.entries@, infos@),
{
    let ghost start = issue_views(issues@);
    let valid_paths = crate_path_list(infos);
    let ghost all = deps.entries@;
    let mut i: usize = 0;
    while i < deps.entries.len()
        invariant
            all == deps.entries@,
            views(valid_paths@) == crate_paths(infos@),
            i <= deps.entries.len(),
            issue_views(issues@) == start + orphan_issues(all.take(i as int), infos@),
        decreases deps.entries.len() - i,
    {
        assert(all.take(i + 1).drop_last() =~= all.take(i as int));
        assert(all.take(i + 1).last() == all[i as int]);
        let name = deps.entries[i].0.as_str();
        if let TomlValue::Table(t) = &deps.entries[i].1 {
            if let Some(p) = t.get_str("path") {
                if starts_with(p.as_str(), "crates/") && !contains_text(&valid_paths, p.as_str()) {
                    push_warning(
                        issues,
                        FacadeIssueCode::OrphanWorkspaceDependencyPath,
                        cat5("[workspace.dependencies].", name, ".path points to `", p.as_str(), "`, but no matching crate manifest was found"),
                    );
                }
            }
        }
        assert(issue_views(issues@) =~= start + orphan_issues(all.take(i + 1), infos@));
        i = i + 1;
    }
    assert(all.take(i as int) =~= all);
}

/// The issues of `[workspace.dependencies]`.
pub open spec fn workspace_dependency_issues(ws: TomlTable, infos: Seq<CrateManifestInfo>) -> Seq<IssueView> {
    match get_table(ws, "dependencies"@) {
        None => seq![warn(FacadeIssueCode::MissingWorkspaceDependencies, "missing [workspace.dependencies]"@)],
        Some(d) => dependency_version_issues(d.entries@) + crate_dependency_issues(d, infos) + orphan_issues(d.entries@, infos),
    }
}

/// Checks `[workspace.dependencies]`: every entry's shape and version, the
/// entry of every child crate, and `crates/` paths without a crate.
pub fn validate_workspace_dependencies(ws: &TomlTable, infos: &Vec<CrateManifestInfo>, issues: &mut Vec<ManifestIssue>)
    ensures
        issue_views(final(issues)@) == issue_views(old(issues)@) + workspace_dependency_issues(*ws, infos@),
{
    let ghost start = issue_views(issues@);
    match ws.get_table("dependencies") {
        None => {
            push_warning(issues, FacadeIssueCode::MissingWorkspaceDependencies, "missing [workspace.dependencies]".to_owned());
        },
        Some(deps) => {
            validate_all_workspace_dependency_versions(deps, issues);
            validate_crate_workspace_dependencies(deps, infos, issues);
            validate_orphan_workspace_dependency_paths(deps, infos, issues);
        },
    }
    assert(issue_views(issues@) =~= start + workspace_dependency_issues(*ws, infos@));
}

/// `[workspace.lints]`, when it is a table.
pub open spec fn workspace_lints(ws: TomlTable) -> Option<TomlTable> {
    get_table(ws, "lints"@)
}

/// The issues of the workspace lint policy.
pub open spec fn workspace_lint_issues(ws: TomlTable) -> Seq<IssueView> {
    let unsafe_code = match workspace_lints(ws) {
        Some(l) => match get_table(l, "rust"@) {
            Some(r) => get_str(r, "unsafe_code"@),
            None => None,
        },
        None => None,
    };
    let clippy = match workspace_lints(ws) {
        Some(l) => get_table(l, "clippy"@),
        None => None,
    };
    (match unsafe_code {
        Some(a) => if a == "forbid"@ {
            seq![]
        } else {
            seq![warn(
                FacadeIssueCode::InvalidWorkspaceUnsafeCodePolicy,
                "expected [workspace.lints.rust].unsafe_code = \"forbid\", found `"@ + a + "`"@,
            )]
        },
        None => seq![warn(FacadeIssueCode::MissingWorkspaceUnsafeCodePolicy, "missing [workspace.lints.rust].unsafe_code = \"forbid\""@)],
    }) + (if clippy is None {
        seq![warn(FacadeIssueCode::MissingWorkspaceClippyLints, "missing [workspace.lints.clippy]"@)]
    } else {
        seq![]
    })
}

/// Checks that `unsafe_code = "forbid"` and that clippy lints are set.
pub fn validate_workspace_lints(ws: &TomlTable, issues: &mut Vec<ManifestIssue>)
    ensures
        issue_views(final(issues)@) == issue_views(old(issues)@) + workspace_lint_issues(*ws),
{
    let ghost start = issue_views(issues@);
    let lints = ws.get_table("lints");
    let mut unsafe_code: Option<&String> = None;
    let mut has_clippy = false;
    if let Some(l) = lints {
        if let Some(r) = l.get_table("rust") {
            unsafe_code = r.get_str("unsafe_code");
        }
        has_clippy = l.get_table("clippy").is_some();
    }
    match unsafe_code {
        Some(a) => {
            if !str_eq(a.as_str(), "forbid") {
                push_warning(
                    issues,
                    FacadeIssueCode::InvalidWorkspaceUnsafeCodePolicy,
                    cat3("expected [workspace.lints.rust].unsafe_code = \"forbid\", found `", a.as_str(), "`"),
                );
            }
        },
        None => {
            push_warning(issues, FacadeIssueCode::MissingWorkspaceUnsafeCodePolicy, "missing [workspace.lints.rust].unsafe_code = \"forbid\"".to_owned());
        },
    }
    if !has_clippy {
        push_warning(issues, FacadeIssueCode::MissingWorkspaceClippyLints, "missing [workspace.lints.clippy]".to_owned());
    }
    assert(issue_views(issues@) =~= start + workspace_lint_issues(*ws));
}

} // verus!
