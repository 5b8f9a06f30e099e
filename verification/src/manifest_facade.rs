//! Checks of a facade package's wiring: one optional workspace dependency
//! and one feature for every child crate, an empty default feature set, and
//! a `full` feature that names every child feature.

use vstd::prelude::*;
use vstd::string::{StrSliceExecFns, StringExecFns};

use crate::codes::FacadeIssueCode;
use crate::manifest_model::{issue_views, push_warning, warn, IssueView, ManifestIssue};
use crate::manifest_package::{contains_text, string_items};
use crate::manifest_workspace::array_strings;
use crate::text::{cat2, cat3, cat5, is_prefix, starts_with, views};
use crate::toml_tree::{get, get_array, get_bool, get_table, is_workspace_true, TomlTable, TomlValue};

verus! {

/// The issues of the facade's dependency on one child crate.
pub open spec fn child_dependency_issue(deps: TomlTable, name: Seq<char>) -> Seq<IssueView> {
    match get(deps, name) {
        None => seq![warn(FacadeIssueCode::MissingFacadeChildDependency, "missing [dependencies]."@ + name)],
        Some(TomlValue::Table(t)) => (if is_workspace_true(TomlValue::Table(t)) {
            seq![]
        } else {
            seq![warn(
                FacadeIssueCode::InvalidFacadeChildDependency,
                "expected [dependencies]."@ + name + ".workspace = true"@,
            )]
        }) + match get_bool(t, "optional"@) {
            Some(true) => seq![],
            Some(false) => seq![warn(
                FacadeIssueCode::InvalidFacadeChildDependency,
                "expected [dependencies]."@ + name + ".optional = true"@,
            )],
            None => seq![warn(
                FacadeIssueCode::MissingFacadeChildDependencyOptional,
                "missing [dependencies]."@ + name + ".optional = true"@,
            )],
        },
        Some(_) => seq![warn(
            FacadeIssueCode::InvalidFacadeChildDependency,
            "expected [dependencies]."@ + name + " to be an inline table"@,
        )],
    }
}

/// The issues of the facade's dependencies on the child crates, in order.
pub open spec fn child_dependency_list_issues(deps: TomlTable, names: Seq<Seq<char>>) -> Seq<IssueView>
    decreases names.len(),
{
    if names.len() == 0 {
        seq![]
    } else {
        child_dependency_list_issues(deps, names.drop_last()) + child_dependency_issue(deps, names.last())
    }
}

/// The issues of the facade's `[dependencies]`, given its child crates.
pub open spec fn facade_dependency_issues(manifest: TomlTable, names: Seq<Seq<char>>) -> Seq<IssueView> {
    if names.len() == 0 {
        seq![]
    } else {
        match get_table(manifest, "dependencies"@) {
            None => seq![warn(
                FacadeIssueCode::MissingFacadeDependencies,
                "facade crate has child crates but no [dependencies]"@,
            )],
            Some(d) => child_dependency_list_issues(d, names),
        }
    }
}

fn check_child_dependency(deps: &TomlTable, name: &str, issues: &mut Vec<ManifestIssue>)
    ensures
        issue_views(final(issues)@) == issue_views(old(issues)@) + child_dependency_issue(*deps, name@),
{
    let ghost start = issue_views(issues@);
    match deps.get(name) {
        None => {
            push_warning(issues, FacadeIssueCode::MissingFacadeChildDependency, cat2("missing [dependencies].", name));
        },
        Some(TomlValue::Table(t)) => {
            let dependency = deps.get(name).unwrap();
            if !dependency.is_workspace_true() {
                push_warning(
                    issues,
                    FacadeIssueCode::InvalidFacadeChildDependency,
                    cat3("expected [dependencies].", name, ".workspace = true"),
                );
            }
            match t.get_bool("optional") {
                Some(true) => {},
                Some(false) => {
                    push_warning(
                        issues,
                        FacadeIssueCode::InvalidFacadeChildDependency,
                        cat3("expected [dependencies].", name, ".optional = true"),
                    );
                },
                None => {
                    push_warning(
                        issues,
                        FacadeIssueCode::MissingFacadeChildDependencyOptional,
                        cat3("missing [dependencies].", name, ".optional = true"),
                    );
                },
            }
        },
        Some(_) => {
            push_warning(
                issues,
                FacadeIssueCode::InvalidFacadeChildDependency,
                cat3("expected [dependencies].", name, " to be an inline table"),
            );
        },
    }
    assert(issue_views(issues@) =~= start + child_dependency_issue(*deps, name@));
}

/// Checks the facade's dependency on each child crate: present, an inline
/// table, inherited from the workspace, and optional.
pub fn validate_facade_child_dependencies(manifest: &TomlTable, names: &Vec<String>, issues: &mut Vec<ManifestIssue>)
    ensures
        issue_views(final(issues)@) == issue_views(old(issues)@) + facade_dependency_issues(*manifest, views(names@)),
{
    let ghost start = issue_views(issues@);
    if names.len() == 0 {
        assert(issue_views(issues@) =~= start + facade_dependency_issues(*manifest, views(names@)));
        return;
    }
    match manifest.get_table("dependencies") {
        None => {
            push_warning(
                issues,
                FacadeIssueCode::MissingFacadeDependencies,
                "facade crate has child crates but no [dependencies]".to_owned(),
            );
        },
        Some(deps) => {
            let mut i: usize = 0;
            while i < names.len()
                invariant
                    i <= names.len(),
                    issue_views(issues@) == start + child_dependency_list_issues(*deps, views(names@).take(i as int)),
                decreases names.len() - i,
            {
                assert(views(names@).take(i + 1).drop_last() =~= views(names@).take(i as int));
                assert(views(names@).take(i + 1).last() == names@[i as int]@);
                check_child_dependency(deps, names[i].as_str(), issues);
                assert(issue_views(issues@) =~= start + child_dependency_list_issues(*deps, views(names@).take(i + 1)));
                i = i + 1;
            }
            assert(views(names@).take(i as int) =~= views(names@));
        },
    }
    assert(issue_views(issues@) =~= start + facade_dependency_issues(*manifest, views(names@)));
}

/// The feature of a child crate: its name without a leading `use-`.
pub open spec fn child_feature_name(name: Seq<char>) -> Seq<char> {
    if is_prefix("use-"@, name) {
        name.skip(4)
    } else {
        name
    }
}

/// The feature name of a child crate.
pub fn feature_name_for_child_crate(name: &str) -> (feature: String)
    ensures
        feature@ == child_feature_name(name@),
{
    if starts_with(name, "use-") {
        proof {
            reveal_strlit("use-");
        }
        let n = name.unicode_len();
        name.substring_char(4, n).to_owned()
    } else {
        name.to_owned()
    }
}

/// The issues of `[features].default`.
pub open spec fn default_feature_issues(features: TomlTable) -> Seq<IssueView> {
    match get_array(features, "default"@) {
        Some(items) => if items.len() == 0 {
            seq![]
        } else {
            seq![warn(FacadeIssueCode::InvalidFacadeDefaultFeatures, "expected [features].default = []"@)]
        },
        None => seq![warn(FacadeIssueCode::MissingFacadeDefaultFeatures, "missing [features].default = []"@)],
    }
}

/// The names that `[features].full` lists, where it is an array.
pub open spec fn full_feature_names(features: TomlTable) -> Option<Seq<Seq<char>>> {
    match get_array(features, "full"@) {
        Some(items) => Some(string_items(items)),
        None => None,
    }
}

/// The issues of the features of one child crate.
pub open spec fn child_feature_issue(features: TomlTable, name: Seq<char>) -> Seq<IssueView> {
    let feature = child_feature_name(name);
    let dep = "dep:"@ + name;
    (match full_feature_names(features) {
        Some(full) => if full.contains(feature) {
            seq![]
        } else {
            seq![warn(
                FacadeIssueCode::MissingFullFeatureMember,
                "expected [features].full to include `"@ + feature + "`"@,
            )]
        },
        None => seq![],
    }) + match get_array(features, feature) {
        None => seq![warn(FacadeIssueCode::MissingFacadeChildFeature, "missing [features]."@ + feature)],
        Some(items) => if string_items(items).contains(dep) {
            seq![]
        } else {
            seq![warn(
                FacadeIssueCode::InvalidFacadeChildFeature,
                "expected [features]."@ + feature + " to include `"@ + dep + "`"@,
            )]
        },
    }
}

/// The issues of the features of the child crates, in order.
pub open spec fn child_feature_list_issues(features: TomlTable, names: Seq<Seq<char>>) -> Seq<IssueView>
    decreases names.len(),
{
    if names.len() == 0 {
        seq![]
    } else {
        child_feature_list_issues(features, names.drop_last()) + child_feature_issue(features, names.last())
    }
}

/// The issues of the facade's `[features]`, given its child crates.
pub open spec fn facade_feature_issues(manifest: TomlTable, names: Seq<Seq<char>>) -> Seq<IssueView> {
    if names.len() == 0 {
        seq![]
    } else {
        match get_table(manifest, "features"@) {
            None => seq![warn(FacadeIssueCode::MissingFacadeFeatures, "facade crate has child crates but no [features]"@)],
            Some(f) => default_feature_issues(f) + (if full_feature_names(f) is None {
                seq![warn(FacadeIssueCode::MissingFacadeFullFeature, "missing [features].full"@)]
            } else {
                seq![]
            }) + child_feature_list_issues(f, names),
        }
    }
}

fn check_child_feature(features: &TomlTable, full: &Option<Vec<String>>, name: &str, issues: &mut Vec<ManifestIssue>)
    requires
        match *full {
            Some(f) => full_feature_names(*features) == Some(views(f@)),
            None => full_feature_names(*features) is None,
        },
    ensures
        issue_views(final(issues)@) == issue_views(old(issues)@) + child_feature_issue(*features, name@),
{
    let ghost start = issue_views(issues@);
    let feature = feature_name_for_child_crate(name);
    if let Some(full_names) = full {
        if !contains_text(full_names, feature.as_str()) {
            push_warning(
                issues,
                FacadeIssueCode::MissingFullFeatureMember,
                cat3("expected [features].full to include `", feature.as_str(), "`"),
            );
        }
    }
    let ghost mid = issue_views(issues@);
    match features.get_array(feature.as_str()) {
        None => {
            push_warning(issues, FacadeIssueCode::MissingFacadeChildFeature, cat2("missing [features].", feature.as_str()));
        },
        Some(items) => {
            let values = array_strings(items);
            let dep = cat2("dep:", name);
            if !contains_text(&values, dep.as_str()) {
                let message = cat5("expected [features].", feature.as_str(), " to include `", dep.as_str(), "`");
                push_warning(issues, FacadeIssueCode::InvalidFacadeChildFeature, message);
            }
        },
    }
    assert(issue_views(issues@) =~= start + child_feature_issue(*features, name@));
}

/// Checks the facade's features: `default` empty, `full` present and naming
/// every child feature, and for each child crate a feature that enables its
/// dependency.
pub fn validate_facade_features(manifest: &TomlTable, names: &Vec<String>, issues: &mut Vec<ManifestIssue>)
    ensures
        issue_views(final(issues)@) == issue_views(old(issues)@) + facade_feature_issues(*manifest, views(names@)),
{
    let ghost start = issue_views(issues@);
    if names.len() == 0 {
        assert(issue_views(issues@) =~= start + facade_feature_issues(*manifest, views(names@)));
        return;
    }
    match manifest.get_table("features") {
        None => {
            push_warning(
                issues,
                FacadeIssueCode::MissingFacadeFeatures,
                "facade crate has child crates but no [features]".to_owned(),
            );
        },
        Some(features) => {
            match features.get_array("default") {
                Some(items) => {
                    if items.len() != 0 {
                        push_warning(
                            issues,
                            FacadeIssueCode::InvalidFacadeDefaultFeatures,
                            "expected [features].default = []".to_owned(),
                        );
                    }
                },
                None => {
                    push_warning(
                        issues,
                        FacadeIssueCode::MissingFacadeDefaultFeatures,
                        "missing [features].default = []".to_owned(),
                    );
                },
            }
            let full: Option<Vec<String>> = match features.get_array("full") {
                Some(items) => Some(array_strings(items)),
                None => None,
            };
            if full.is_none() {
                push_warning(issues, FacadeIssueCode::MissingFacadeFullFeature, "missing [features].full".to_owned());
            }
            let ghost head = issue_views(issues@);
            let mut i: usize = 0;
            while i < names.len()
                invariant
                    i <= names.len(),
                    match full {
                        Some(f) => full_feature_names(*features) == Some(views(f@)),
                        None => full_feature_names(*features) is None,
                    },
                    issue_views(issues@) == head + child_feature_list_issues(*features, views(names@).take(i as int)),
                decreases names.len() - i,
            {
                assert(views(names@).take(i + 1).drop_last() =~= views(names@).take(i as int));
                assert(views(names@).take(i + 1).last() == names@[i as int]@);
                check_child_feature(features, &full, names[i].as_str(), issues);
                assert(issue_views(issues@) =~= head + child_feature_list_issues(*features, views(names@).take(i + 1)));
                i = i + 1;
            }
            assert(views(names@).take(i as int) =~= views(names@));
        },
    }
    assert(issue_views(issues@) =~= start + facade_feature_issues(*manifest, views(names@)));
}

/// The issues of the facade's wiring: its dependencies, then its features.
pub open spec fn facade_wiring_issues(manifest: TomlTable, names: Seq<Seq<char>>) -> Seq<IssueView> {
    facade_dependency_issues(manifest, names) + facade_feature_issues(manifest, names)
}

/// Checks the facade's dependency and feature wiring.
pub fn validate_facade_dependency_and_feature_wiring(manifest: &TomlTable, names: &Vec<String>, issues: &mut Vec<ManifestIssue>)
    ensures
        issue_views(final(issues)@) == issue_views(old(issues)@) + facade_wiring_issues(*manifest, views(names@)),
{
    let ghost start = issue_views(issues@);
    validate_facade_child_dependencies(manifest, names, issues);
    validate_facade_features(manifest, names, issues);
    assert(issue_views(issues@) =~= start + facade_wiring_issues(*manifest, views(names@)));
}

} // verus!
