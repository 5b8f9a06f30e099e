//! Checks of the `[package]` table of a Cargo manifest.

use vstd::prelude::*;

use crate::category_slugs::{is_valid_category_slug, valid_slugs, MAX_CRATES_IO_CATEGORIES};
use crate::codes::FacadeIssueCode;
use crate::manifest_model::{err, issue_views, push_error, push_warning, warn, IssueView, ManifestIssue, ManifestIssueSeverity, ManifestKind};
use crate::text::{cat2, cat3, cat4, cat5, decimal, is_prefix, starts_with, str_eq, usize_text, views};
use crate::toml_tree::{get, get_bool, get_str, get_table, has_key, is_workspace_true, TomlTable, TomlValue};

verus! {

/// Whether `t[key]` is a string or `{ workspace = true }`.
pub open spec fn string_or_workspace_true(t: TomlTable, key: Seq<char>) -> bool {
    match get(t, key) {
        Some(v) => v is String || is_workspace_true(v),
        None => false,
    }
}

/// Whether `t[key]` is a string or `{ workspace = true }`.
pub fn has_string_or_workspace_true(t: &TomlTable, key: &str) -> (r: bool)
    ensures
        r == string_or_workspace_true(*t, key@),
{
    match t.get(key) {
        Some(v) => v.as_str().is_some() || v.is_workspace_true(),
        None => false,
    }
}

/// `[package.metadata.docs.rs]`, when every step is a table.
pub open spec fn docs_rs_table(manifest: TomlTable) -> Option<TomlTable> {
    match get_table(manifest, "package"@) {
        Some(p) => match get_table(p, "metadata"@) {
            Some(m) => match get_table(m, "docs"@) {
                Some(d) => get_table(d, "rs"@),
                None => None,
            },
            None => None,
        },
        None => None,
    }
}

/// The issues of the docs.rs configuration of a manifest.
pub open spec fn docs_rs_issues(manifest: TomlTable) -> Seq<IssueView> {
    let missing = warn(FacadeIssueCode::MissingDocsRsAllFeatures, "missing [package.metadata.docs.rs].all-features = true"@);
    match docs_rs_table(manifest) {
        None => seq![missing],
        Some(t) => match get(t, "all-features"@) {
            Some(v) => if v == TomlValue::Boolean(true) {
                seq![]
            } else {
                seq![warn(FacadeIssueCode::InvalidDocsRsAllFeatures, "expected [package.metadata.docs.rs].all-features = true"@)]
            },
            None => seq![missing],
        },
    }
}

/// Checks that `[package.metadata.docs.rs].all-features` is `true`.
pub fn validate_docs_rs_configuration(manifest: &TomlTable, issues: &mut Vec<ManifestIssue>)
    ensures
        issue_views(final(issues)@) == issue_views(old(issues)@) + docs_rs_issues(*manifest),
{
    let ghost start = issue_views(issues@);
    let mut docs_rs: Option<&TomlTable> = None;
    if let Some(p) = manifest.get_table("package") {
        if let Some(m) = p.get_table("metadata") {
            if let Some(d) = m.get_table("docs") {
                docs_rs = d.get_table("rs");
            }
        }
    }
    match docs_rs {
        None => {
            push_warning(issues, FacadeIssueCode::MissingDocsRsAllFeatures, "missing [package.metadata.docs.rs].all-features = true".to_owned());
        },
        Some(t) => match t.get("all-features") {
            Some(v) => {
                let is_true = match v {
                    TomlValue::Boolean(b) => *b,
                    _ => false,
                };
                if !is_true {
                    push_warning(issues, FacadeIssueCode::InvalidDocsRsAllFeatures, "expected [package.metadata.docs.rs].all-features = true".to_owned());
                }
            },
            None => {
                push_warning(issues, FacadeIssueCode::MissingDocsRsAllFeatures, "missing [package.metadata.docs.rs].all-features = true".to_owned());
            },
        },
    }
    assert(issue_views(issues@) =~= start + docs_rs_issues(*manifest));
}

/// The issue when the package name differs from the name its directory gives.
pub open spec fn directory_name_issues(package: TomlTable, expected_name: Seq<char>) -> Seq<IssueView> {
    match get_str(package, "name"@) {
        Some(name) => if name != expected_name {
            seq![warn(
                FacadeIssueCode::PackageNameDirectoryMismatch,
                "package name `"@ + name + "` does not match its expected directory name `"@ + expected_name + "`"@,
            )]
        } else {
            seq![]
        },
        None => seq![],
    }
}

/// Checks that the package name matches its expected directory name: the
/// facade name for the facade package, the crate directory for a child.
pub fn validate_package_directory_name(package: &TomlTable, expected_name: &str, issues: &mut Vec<ManifestIssue>)
    ensures
        issue_views(final(issues)@) == issue_views(old(issues)@) + directory_name_issues(*package, expected_name@),
{
    let ghost start = issue_views(issues@);
    if let Some(name) = package.get_str("name") {
        if !str_eq(name.as_str(), expected_name) {
            push_warning(
                issues,
                FacadeIssueCode::PackageNameDirectoryMismatch,
                cat5("package name `", name.as_str(), "` does not match its expected directory name `", expected_name, "`"),
            );
        }
    }
    assert(issue_views(issues@) =~= start + directory_name_issues(*package, expected_name@));
}

/// The issues of the package name for a manifest of kind `kind`.
pub open spec fn package_name_issues(package: TomlTable, kind: ManifestKind, facade_name: Seq<char>) -> Seq<IssueView> {
    match get_str(package, "name"@) {
        None => seq![err(FacadeIssueCode::InvalidPackageName, "expected [package].name to be a string"@)],
        Some(name) => match kind {
            ManifestKind::WorkspaceRoot => seq![],
            ManifestKind::FacadePackage => if name != facade_name {
                seq![warn(
                    FacadeIssueCode::InvalidFacadePackageName,
                    "expected facade package name `"@ + facade_name + "`, found `"@ + name + "`"@,
                )]
            } else {
                seq![]
            },
            ManifestKind::ChildPackage => if !is_prefix("use-"@, name) {
                seq![warn(
                    FacadeIssueCode::InvalidChildPackageName,
                    "expected child package name to start with `use-`, found `"@ + name + "`"@,
                )]
            } else {
                seq![]
            },
        },
    }
}

/// Checks the package name: a string, the facade name for the facade
/// package, and starting with `use-` for a child.
pub fn validate_package_name(package: &TomlTable, kind: ManifestKind, facade_name: &str, issues: &mut Vec<ManifestIssue>)
    ensures
        issue_views(final(issues)@) == issue_views(old(issues)@) + package_name_issues(*package, kind, facade_name@),
{
    let ghost start = issue_views(issues@);
    match package.get_str("name") {
        None => {
            push_error(issues, FacadeIssueCode::InvalidPackageName, "expected [package].name to be a string".to_owned());
        },
        Some(name) => match kind {
            ManifestKind::WorkspaceRoot => {},
            ManifestKind::FacadePackage => {
                if !str_eq(name.as_str(), facade_name) {
                    push_warning(
                        issues,
                        FacadeIssueCode::InvalidFacadePackageName,
                        cat5("expected facade package name `", facade_name, "`, found `", name.as_str(), "`"),
                    );
                }
            },
            ManifestKind::ChildPackage => {
                if !starts_with(name.as_str(), "use-") {
                    push_warning(
                        issues,
                        FacadeIssueCode::InvalidChildPackageName,
                        cat3("expected child package name to start with `use-`, found `", name.as_str(), "`"),
                    );
                }
            },
        },
    }
    assert(issue_views(issues@) =~= start + package_name_issues(*package, kind, facade_name@));
}

/// The issues of `[package].version`.
pub open spec fn version_issues(package: TomlTable) -> Seq<IssueView> {
    if string_or_workspace_true(package, "version"@) {
        seq![]
    } else {
        seq![warn(FacadeIssueCode::InvalidPackageVersion, "expected [package].version to be a string or use version.workspace = true"@)]
    }
}

/// Checks that `[package].version` is a string or inherited.
pub fn validate_package_version(package: &TomlTable, issues: &mut Vec<ManifestIssue>)
    ensures
        issue_views(final(issues)@) == issue_views(old(issues)@) + version_issues(*package),
{
    let ghost start = issue_views(issues@);
    if !has_string_or_workspace_true(package, "version") {
        push_warning(issues, FacadeIssueCode::InvalidPackageVersion, "expected [package].version to be a string or use version.workspace = true".to_owned());
    }
    assert(issue_views(issues@) =~= start + version_issues(*package));
}

/// The issues of `[package].publish`.
pub open spec fn publish_issues(package: TomlTable) -> Seq<IssueView> {
    match get_bool(package, "publish"@) {
        Some(true) => seq![],
        Some(false) => seq![warn(FacadeIssueCode::InvalidPackagePublish, "expected [package].publish = true for publishable RustUse crates"@)],
        None => seq![warn(FacadeIssueCode::MissingPackagePublish, "missing [package].publish"@)],
    }
}

/// Checks that `[package].publish` is `true`.
pub fn validate_package_publish(package: &TomlTable, issues: &mut Vec<ManifestIssue>)
    ensures
        issue_views(final(issues)@) == issue_views(old(issues)@) + publish_issues(*package),
{
    let ghost start = issue_views(issues@);
    match package.get_bool("publish") {
        Some(true) => {},
        Some(false) => {
            push_warning(issues, FacadeIssueCode::InvalidPackagePublish, "expected [package].publish = true for publishable RustUse crates".to_owned());
        },
        None => {
            push_warning(issues, FacadeIssueCode::MissingPackagePublish, "missing [package].publish".to_owned());
        },
    }
    assert(issue_views(issues@) =~= start + publish_issues(*package));
}

/// The issues of `[package].homepage` and `[package].documentation`.
pub open spec fn homepage_documentation_issues(package: TomlTable) -> Seq<IssueView> {
    (if string_or_workspace_true(package, "homepage"@) {
        seq![]
    } else {
        seq![warn(FacadeIssueCode::InvalidPackageHomepage, "expected [package].homepage to be a string or use homepage.workspace = true"@)]
    }) + (if string_or_workspace_true(package, "documentation"@) {
        seq![]
    } else {
        seq![warn(FacadeIssueCode::InvalidPackageDocumentation, "expected [package].documentation to be a string or use documentation.workspace = true"@)]
    })
}

/// Checks that the homepage and documentation are strings or inherited.
pub fn validate_package_homepage_and_documentation(package: &TomlTable, issues: &mut Vec<ManifestIssue>)
    ensures
        issue_views(final(issues)@) == issue_views(old(issues)@) + homepage_documentation_issues(*package),
{
    let ghost start = issue_views(issues@);
    if !has_string_or_workspace_true(package, "homepage") {
        push_warning(issues, FacadeIssueCode::InvalidPackageHomepage, "expected [package].homepage to be a string or use homepage.workspace = true".to_owned());
    }
    if !has_string_or_workspace_true(package, "documentation") {
        push_warning(issues, FacadeIssueCode::InvalidPackageDocumentation, "expected [package].documentation to be a string or use documentation.workspace = true".to_owned());
    }
    assert(issue_views(issues@) =~= start + homepage_documentation_issues(*package));
}

/// The issues of `[package].readme`.
pub open spec fn readme_issues(package: TomlTable) -> Seq<IssueView> {
    if string_or_workspace_true(package, "readme"@) {
        seq![]
    } else {
        seq![warn(FacadeIssueCode::MissingPackageReadmeFile, "expected [package].readme to be set or inherited from workspace"@)]
    }
}

/// Checks that `[package].readme` is set or inherited.
pub fn validate_package_readme(package: &TomlTable, issues: &mut Vec<ManifestIssue>)
    ensures
        issue_views(final(issues)@) == issue_views(old(issues)@) + readme_issues(*package),
{
    let ghost start = issue_views(issues@);
    if !has_string_or_workspace_true(package, "readme") {
        push_warning(issues, FacadeIssueCode::MissingPackageReadmeFile, "expected [package].readme to be set or inherited from workspace".to_owned());
    }
    assert(issue_views(issues@) =~= start + readme_issues(*package));
}

/// The issue of one field that should be `{ workspace = true }`.
pub open spec fn inherited_field_issues(package: TomlTable, field: Seq<char>) -> Seq<IssueView> {
    match get(package, field) {
        None => seq![warn(FacadeIssueCode::MissingPackageInheritedField, "missing [package]."@ + field + ".workspace = true"@)],
        Some(v) => if is_workspace_true(v) {
            seq![]
        } else {
            seq![warn(FacadeIssueCode::PackageFieldNotInherited, "expected [package]."@ + field + ".workspace = true"@)]
        },
    }
}

/// The issues of the workspace-inherited fields and of `lints.workspace`.
pub open spec fn inheritance_issues(package: TomlTable) -> Seq<IssueView> {
    inherited_field_issues(package, "edition"@) + inherited_field_issues(package, "license"@)
        + inherited_field_issues(package, "repository"@) + inherited_field_issues(package, "rust-version"@)
        + (match get(package, "lints"@) {
            Some(v) => if is_workspace_true(v) {
                seq![]
            } else {
                seq![warn(FacadeIssueCode::MissingLintsWorkspace, "expected [package].lints.workspace = true"@)]
            },
            None => seq![warn(FacadeIssueCode::MissingLintsWorkspace, "expected [package].lints.workspace = true"@)],
        })
}

/// Checks that one field is `{ workspace = true }`.
pub fn check_workspace_inherited_package_field(package: &TomlTable, field: &str, issues: &mut Vec<ManifestIssue>)
    ensures
        issue_views(final(issues)@) == issue_views(old(issues)@) + inherited_field_issues(*package, field@),
{
    let ghost start = issue_views(issues@);
    match package.get(field) {
        None => {
            push_warning(issues, FacadeIssueCode::MissingPackageInheritedField, cat3("missing [package].", field, ".workspace = true"));
        },
        Some(v) => {
            if !v.is_workspace_true() {
                push_warning(issues, FacadeIssueCode::PackageFieldNotInherited, cat3("expected [package].", field, ".workspace = true"));
            }
        },
    }
    assert(issue_views(issues@) =~= start + inherited_field_issues(*package, field@));
}

/// Checks that edition, license, repository and rust-version are inherited
/// from the workspace, and that `lints.workspace = true`.
pub fn validate_workspace_inherited_package_fields(package: &TomlTable, issues: &mut Vec<ManifestIssue>)
    ensures
        issue_views(final(issues)@) == issue_views(old(issues)@) + inheritance_issues(*package),
{
    let ghost start = issue_views(issues@);
    check_workspace_inherited_package_field(package, "edition", issues);
    check_workspace_inherited_package_field(package, "license", issues);
    check_workspace_inherited_package_field(package, "repository", issues);
    check_workspace_inherited_package_field(package, "rust-version", issues);
    let lints_inherited = match package.get("lints") {
        Some(v) => v.is_workspace_true(),
        None => false,
    };
    if !lints_inherited {
        push_warning(issues, FacadeIssueCode::MissingLintsWorkspace, "expected [package].lints.workspace = true".to_owned());
    }
    assert(issue_views(issues@) =~= start + inheritance_issues(*package));
}

/// The code of the issue for a missing required package field.
pub open spec fn missing_field_code(field: Seq<char>) -> FacadeIssueCode {
    if field == "readme"@ {
        FacadeIssueCode::MissingPackageReadmeFile
    } else if field == "homepage"@ {
        FacadeIssueCode::InvalidPackageHomepage
    } else if field == "documentation"@ {
        FacadeIssueCode::InvalidPackageDocumentation
    } else {
        FacadeIssueCode::MissingPackageField
    }
}

/// The code of the issue for a missing required package field.
pub fn missing_package_field_code(field: &str) -> (code: FacadeIssueCode)
    ensures
        code == missing_field_code(field@),
{
    if str_eq(field, "readme") {
        FacadeIssueCode::MissingPackageReadmeFile
    } else if str_eq(field, "homepage") {
        FacadeIssueCode::InvalidPackageHomepage
    } else if str_eq(field, "documentation") {
        FacadeIssueCode::InvalidPackageDocumentation
    } else {
        FacadeIssueCode::MissingPackageField
    }
}

/// The fields every package must set.
pub open spec fn required_package_fields() -> Seq<Seq<char>> {
    seq!["name"@, "version"@, "edition"@, "license"@, "repository"@, "homepage"@, "documentation"@, "readme"@, "rust-version"@]
}

/// The issues for the fields of `fields` that `package` lacks.
pub open spec fn missing_field_issues(package: TomlTable, fields: Seq<Seq<char>>) -> Seq<IssueView>
    decreases fields.len(),
{
    if fields.len() == 0 {
        seq![]
    } else {
        missing_field_issues(package, fields.drop_last()) + if has_key(package, fields.last()) {
            seq![]
        } else {
            seq![warn(missing_field_code(fields.last()), "missing [package]."@ + fields.last())]
        }
    }
}

/// The required fields, as a vector.
fn required_field_list() -> (fields: Vec<&'static str>)
    ensures
        fields@.map_values(|s: &str| s@) == required_package_fields(),
{
    let fields = vec!["name", "version", "edition", "license", "repository", "homepage", "documentation", "readme", "rust-version"];
    assert(fields@.map_values(|s: &str| s@) =~= required_package_fields());
    fields
}

/// Reports every required package field that is missing.
pub fn validate_required_package_fields(package: &TomlTable, issues: &mut Vec<ManifestIssue>)
    ensures
        issue_views(final(issues)@) == issue_views(old(issues)@) + missing_field_issues(*package, required_package_fields()),
{
    let ghost start = issue_views(issues@);
    let fields = required_field_list();
    let ghost all = required_package_fields();
    let mut i: usize = 0;
    while i < fields.len()
        invariant
            fields@.map_values(|s: &str| s@) == all,
            i <= fields.len(),
            issue_views(issues@) == start + missing_field_issues(*package, all.take(i as int)),
        decreases fields.len() - i,
    {
        let field = fields[i];
        assert(all.take(i + 1).drop_last() =~= all.take(i as int));
        assert(all.take(i + 1).last() == field@);
        if !package.contains_key(field) {
            push_warning(issues, missing_package_field_code(field), cat2("missing [package].", field));
        }
        assert(issue_views(issues@) =~= start + missing_field_issues(*package, all.take(i + 1)));
        i = i + 1;
    }
    assert(all.take(i as int) =~= all);
}

/// The string items of an array, in order.
pub open spec fn string_items(items: Seq<TomlValue>) -> Seq<Seq<char>>
    decreases items.len(),
{
    if items.len() == 0 {
        seq![]
    } else {
        string_items(items.drop_last()) + match items.last() {
            TomlValue::String(s) => seq![s@],
            _ => seq![],
        }
    }
}

/// The issues for the items of a category array that are not strings.
pub open spec fn category_item_issues(items: Seq<TomlValue>, field_name: Seq<char>) -> Seq<IssueView>
    decreases items.len(),
{
    if items.len() == 0 {
        seq![]
    } else {
        category_item_issues(items.drop_last(), field_name) + match items.last() {
            TomlValue::String(_) => seq![],
            _ => seq![err(
                FacadeIssueCode::InvalidCategoryValue,
                "expected "@ + field_name + "["@ + decimal((items.len() - 1) as nat) + "] to be a string"@,
            )],
        }
    }
}

/// The categories of a `categories` value, and the issues of its shape.
pub open spec fn collected_categories(value: TomlValue, field_name: Seq<char>) -> (Option<Seq<Seq<char>>>, Seq<IssueView>) {
    match value {
        TomlValue::Array(items) => (Some(string_items(items@)), category_item_issues(items@, field_name)),
        _ => (None, seq![err(FacadeIssueCode::InvalidCategoriesShape, "expected "@ + field_name + " to be an array of strings"@)]),
    }
}

/// Collects the string items of a `categories` value, reporting a value that
/// is not an array and each item that is not a string.
pub fn collect_category_strings(value: &TomlValue, field_name: &str, issues: &mut Vec<ManifestIssue>) -> (categories: Option<Vec<String>>)
    ensures
        match categories {
            Some(c) => collected_categories(*value, field_name@).0 == Some(views(c@)),
            None => collected_categories(*value, field_name@).0 is None,
        },
        issue_views(final(issues)@) == issue_views(old(issues)@) + collected_categories(*value, field_name@).1,
{
    let ghost start = issue_views(issues@);
    match value {
        TomlValue::Array(items) => {
            let mut categories: Vec<String> = Vec::new();
            let mut i: usize = 0;
            while i < items.len()
                invariant
                    i <= items.len(),
                    views(categories@) == string_items(items@.take(i as int)),
                    issue_views(issues@) == start + category_item_issues(items@.take(i as int), field_name@),
                decreases items.len() - i,
            {
                assert(items@.take(i + 1).drop_last() =~= items@.take(i as int));
                assert(items@.take(i + 1).last() == items@[i as int]);
                match &items[i] {
                    TomlValue::String(s) => {
                        let ghost before = views(categories@);
                        categories.push(s.clone());
                        assert(views(categories@) =~= before + seq![s@]);
                    },
                    _ => {
                        let index = usize_text(i);
                        push_error(issues, FacadeIssueCode::InvalidCategoryValue, cat5("expected ", field_name, "[", index.as_str(), "] to be a string"));
                    },
                }
                assert(views(categories@) =~= string_items(items@.take(i + 1)));
                assert(issue_views(issues@) =~= start + category_item_issues(items@.take(i + 1), field_name@));
                i = i + 1;
            }
            assert(items@.take(i as int) =~= items@);
            Some(categories)
        },
        _ => {
            push_error(issues, FacadeIssueCode::InvalidCategoriesShape, cat3("expected ", field_name, " to be an array of strings"));
            assert(issue_views(issues@) =~= start + collected_categories(*value, field_name@).1);
            None
        },
    }
}

/// The issues for each category in order: a repeat of an earlier one, and a
/// slug that crates.io does not accept.
pub open spec fn category_entry_issues(categories: Seq<Seq<char>>, field_name: Seq<char>) -> Seq<IssueView>
    decreases categories.len(),
{
    if categories.len() == 0 {
        seq![]
    } else {
        let c = categories.last();
        category_entry_issues(categories.drop_last(), field_name) + (if categories.drop_last().contains(c) {
            seq![warn(FacadeIssueCode::DuplicateCategory, field_name + " contains duplicate category `"@ + c + "`"@)]
        } else {
            seq![]
        }) + (if valid_slugs().contains(c) {
            seq![]
        } else {
            seq![err(FacadeIssueCode::InvalidCategorySlug, "`"@ + c + "` is not a valid crates.io category slug"@)]
        })
    }
}

/// The issues of a list of categories.
pub open spec fn category_issues(categories: Seq<Seq<char>>, field_name: Seq<char>) -> Seq<IssueView> {
    (if categories.len() > MAX_CRATES_IO_CATEGORIES {
        seq![err(
            FacadeIssueCode::TooManyCategories,
            field_name + " has "@ + decimal(categories.len()) + " categories; crates.io allows at most "@ + decimal(MAX_CRATES_IO_CATEGORIES as nat),
        )]
    } else {
        seq![]
    }) + category_entry_issues(categories, field_name)
}

/// Whether `s` occurs in `list`, by characters.
pub fn contains_text(list: &Vec<String>, s: &str) -> (r: bool)
    ensures
        r == views(list@).contains(s@),
{
    let mut i: usize = 0;
    while i < list.len()
        invariant
            i <= list.len(),
            forall|k: int| 0 <= k < i ==> views(list@)[k] != s@,
        decreases list.len() - i,
    {
        if str_eq(list[i].as_str(), s) {
            assert(views(list@)[i as int] == s@);
            return true;
        }
        i = i + 1;
    }
    assert(!views(list@).contains(s@)) by {
        if views(list@).contains(s@) {
            let k = choose|k: int| 0 <= k < views(list@).len() && views(list@)[k] == s@;
            assert(views(list@)[k] != s@);
        }
    }
    false
}

/// Checks a list of categories: at most five, no repeats, and only slugs
/// that crates.io accepts.
pub fn validate_categories(categories: &Vec<String>, field_name: &str, issues: &mut Vec<ManifestIssue>)
    ensures
        issue_views(final(issues)@) == issue_views(old(issues)@) + category_issues(views(categories@), field_name@),
{
    let ghost start = issue_views(issues@);
    let ghost cats = views(categories@);
    if categories.len() > MAX_CRATES_IO_CATEGORIES {
        let count = usize_text(categories.len());
        let limit = usize_text(MAX_CRATES_IO_CATEGORIES);
        let tail = cat2(" categories; crates.io allows at most ", limit.as_str());
        let message = cat4(field_name, " has ", count.as_str(), tail.as_str());
        assert(message@ =~= field_name@ + " has "@ + decimal(cats.len()) + " categories; crates.io allows at most "@ + decimal(MAX_CRATES_IO_CATEGORIES as nat));
        push_error(issues, FacadeIssueCode::TooManyCategories, message);
    }
    let ghost head = issue_views(issues@);
    assert(head =~= start + (if cats.len() > MAX_CRATES_IO_CATEGORIES {
        seq![err(
            FacadeIssueCode::TooManyCategories,
            field_name@ + " has "@ + decimal(cats.len()) + " categories; crates.io allows at most "@ + decimal(MAX_CRATES_IO_CATEGORIES as nat),
        )]
    } else {
        seq![]
    }));
    let mut seen: Vec<String> = Vec::new();
    let mut i: usize = 0;
    while i < categories.len()
        invariant
            cats == views(categories@),
            i <= categories.len(),
            views(seen@) == cats.take(i as int),
            issue_views(issues@) == head + category_entry_issues(cats.take(i as int), field_name@),
        decreases categories.len() - i,
    {
        let category = categories[i].as_str();
        assert(cats.take(i + 1).drop_last() =~= cats.take(i as int));
        assert(cats.take(i + 1).last() == category@);
        if contains_text(&seen, category) {
            push_warning(issues, FacadeIssueCode::DuplicateCategory, cat4(field_name, " contains duplicate category `", category, "`"));
        }
        if !is_valid_category_slug(category) {
            push_error(issues, FacadeIssueCode::InvalidCategorySlug, cat3("`", category, "` is not a valid crates.io category slug"));
        }
        let ghost before = views(seen@);
        seen.push(categories[i].clone());
        assert(views(seen@) =~= before.push(category@));
        assert(issue_views(issues@) =~= head + category_entry_issues(cats.take(i + 1), field_name@));
        i = i + 1;
    }
    assert(cats.take(i as int) =~= cats);
    assert(issue_views(issues@) =~= start + category_issues(cats, field_name@));
}

/// The issues of the categories of a package.
pub open spec fn package_category_issues(package: TomlTable, workspace_has_categories: bool) -> Seq<IssueView> {
    match get(package, "categories"@) {
        None => seq![warn(FacadeIssueCode::MissingPackageCategories, "missing [package].categories or categories.workspace = true"@)],
        Some(v) => if is_workspace_true(v) {
            if workspace_has_categories {
                seq![]
            } else {
                seq![err(
                    FacadeIssueCode::MissingInheritedCategories,
                    "package uses categories.workspace = true, but [workspace.package].categories is missing"@,
                )]
            }
        } else {
            let collected = collected_categories(v, "[package].categories"@);
            collected.1 + match collected.0 {
                Some(c) => category_issues(c, "[package].categories"@),
                None => seq![],
            }
        },
    }
}

/// Checks the categories of a package, own or inherited.
pub fn analyze_package_categories(package: &TomlTable, workspace_has_categories: bool, issues: &mut Vec<ManifestIssue>)
    ensures
        issue_views(final(issues)@) == issue_views(old(issues)@) + package_category_issues(*package, workspace_has_categories),
{
    let ghost start = issue_views(issues@);
    match package.get("categories") {
        None => {
            push_warning(issues, FacadeIssueCode::MissingPackageCategories, "missing [package].categories or categories.workspace = true".to_owned());
        },
        Some(v) => {
            if v.is_workspace_true() {
                if !workspace_has_categories {
                    push_error(
                        issues,
                        FacadeIssueCode::MissingInheritedCategories,
                        "package uses categories.workspace = true, but [workspace.package].categories is missing".to_owned(),
                    );
                }
            } else {
                let collected = collect_category_strings(v, "[package].categories", issues);
                let ghost mid = issue_views(issues@);
                if let Some(categories) = collected {
                    validate_categories(&categories, "[package].categories", issues);
                }
            }
        },
    }
    assert(issue_views(issues@) =~= start + package_category_issues(*package, workspace_has_categories));
}


/// What the publish check adds to the issues, by what `[package].publish`
/// holds: nothing exactly when it is `true`, one `invalid-package-publish`
/// warning when it is `false`, and one `missing-package-publish` warning
/// when it is absent or not a boolean.
pub proof fn lemma_publish_check(package: TomlTable, before: Seq<IssueView>, after: Seq<IssueView>)
    requires
        after == before + publish_issues(package),
    ensures
        (get(package, "publish"@) == Some(TomlValue::Boolean(true))) <==> (after == before),
        get(package, "publish"@) == Some(TomlValue::Boolean(false)) ==> {
            &&& after.len() == before.len() + 1
            &&& after.last().code == FacadeIssueCode::InvalidPackagePublish
            &&& after.last().severity == ManifestIssueSeverity::Warning
        },
        !(get(package, "publish"@) matches Some(TomlValue::Boolean(_))) ==> {
            &&& after.len() == before.len() + 1
            &&& after.last().code == FacadeIssueCode::MissingPackagePublish
            &&& after.last().severity == ManifestIssueSeverity::Warning
        },
{
    if after == before {
        assert(publish_issues(package).len() == 0) by {
            assert(after.len() == before.len() + publish_issues(package).len());
        }
    }
    if get(package, "publish"@) == Some(TomlValue::Boolean(true)) {
        assert(after =~= before);
    }
}
} // verus!
