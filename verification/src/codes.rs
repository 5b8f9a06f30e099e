//! Stable facade issue codes and the groups they belong to.

use vstd::prelude::*;
use vstd::string::StringExecFns;

use crate::text::{lemma_differ_at, str_eq};

verus! {

/// The group of a facade issue code, in report order.
#[derive(Clone, Copy, Debug, PartialEq, Eq, Structural, Hash)]
pub enum FacadeIssueBucket {
    WorkspaceShape,
    FacadeWiring,
    PackageShape,
    CategoryMetadata,
    RepositoryShape,
    ToolingSurface,
    ReleaseSurface,
}

/// The display label of a bucket.
pub open spec fn bucket_label(b: FacadeIssueBucket) -> Seq<char> {
    match b {
        FacadeIssueBucket::WorkspaceShape => "Workspace shape"@,
        FacadeIssueBucket::FacadeWiring => "Facade wiring"@,
        FacadeIssueBucket::PackageShape => "Package shape"@,
        FacadeIssueBucket::CategoryMetadata => "Category metadata"@,
        FacadeIssueBucket::RepositoryShape => "Repository shape"@,
        FacadeIssueBucket::ToolingSurface => "Tooling surface"@,
        FacadeIssueBucket::ReleaseSurface => "Release surface"@,
    }
}

/// The position of a bucket in declaration order.
pub open spec fn bucket_rank(b: FacadeIssueBucket) -> nat {
    match b {
        FacadeIssueBucket::WorkspaceShape => 0,
        FacadeIssueBucket::FacadeWiring => 1,
        FacadeIssueBucket::PackageShape => 2,
        FacadeIssueBucket::CategoryMetadata => 3,
        FacadeIssueBucket::RepositoryShape => 4,
        FacadeIssueBucket::ToolingSurface => 5,
        FacadeIssueBucket::ReleaseSurface => 6,
    }
}

impl FacadeIssueBucket {
    /// The display label of the bucket.
    pub fn as_str(self) -> (label: &'static str)
        ensures
            label@ == bucket_label(self),
    {
        match self {
            FacadeIssueBucket::WorkspaceShape => "Workspace shape",
            FacadeIssueBucket::FacadeWiring => "Facade wiring",
            FacadeIssueBucket::PackageShape => "Package shape",
            FacadeIssueBucket::CategoryMetadata => "Category metadata",
            FacadeIssueBucket::RepositoryShape => "Repository shape",
            FacadeIssueBucket::ToolingSurface => "Tooling surface",
            FacadeIssueBucket::ReleaseSurface => "Release surface",
        }
    }

    /// The position of the bucket in declaration order.
    pub fn rank(self) -> (r: u8)
        ensures
            r as nat == bucket_rank(self),
    {
        match self {
            FacadeIssueBucket::WorkspaceShape => 0,
            FacadeIssueBucket::FacadeWiring => 1,
            FacadeIssueBucket::PackageShape => 2,
            FacadeIssueBucket::CategoryMetadata => 3,
            FacadeIssueBucket::RepositoryShape => 4,
            FacadeIssueBucket::ToolingSurface => 5,
            FacadeIssueBucket::ReleaseSurface => 6,
        }
    }
}

/// A stable facade issue code.
#[derive(Clone, Copy, Debug, PartialEq, Eq, Structural, Hash)]
pub enum FacadeIssueCode {
    MissingStandardWorkspaceMember,
    NonStandardWorkspaceMembers,
    MissingWorkspace,
    MissingWorkspaceMembers,
    InvalidWorkspaceMembers,
    MissingWorkspaceResolver,
    InvalidWorkspaceResolver,
    MissingWorkspacePackage,
    MissingWorkspacePackageField,
    InvalidWorkspaceRepository,
    MissingWorkspaceDependencies,
    MissingWorkspaceDependency,
    InvalidWorkspaceDependencyShape,
    InvalidWorkspaceDependencyPath,
    MissingWorkspaceDependencyPath,
    MissingWorkspaceDependencyVersion,
    InvalidWorkspaceDependencyVersion,
    MismatchedWorkspaceDependencyVersion,
    OrphanWorkspaceDependencyPath,
    MissingWorkspaceUnsafeCodePolicy,
    InvalidWorkspaceUnsafeCodePolicy,
    MissingWorkspaceClippyLints,
    MissingFacadeDependencies,
    MissingFacadeChildDependency,
    InvalidFacadeChildDependency,
    MissingFacadeChildDependencyOptional,
    MissingFacadeFeatures,
    InvalidFacadeDefaultFeatures,
    MissingFacadeDefaultFeatures,
    MissingFacadeFullFeature,
    MissingFullFeatureMember,
    MissingFacadeChildFeature,
    InvalidFacadeChildFeature,
    InvalidPackageHomepage,
    InvalidPackageDocumentation,
    MissingPackageReadmeFile,
    MissingDocsRsAllFeatures,
    InvalidDocsRsAllFeatures,
    MissingLintsWorkspace,
    PackageNameDirectoryMismatch,
    InvalidFacadePackageName,
    InvalidChildPackageName,
    MissingCrateLib,
    MissingFacadePrelude,
    InvalidCategorySlug,
    TooManyCategories,
    DuplicateCategory,
    InvalidCategoriesShape,
    InvalidCategoryValue,
    MissingWorkspaceCategories,
    MissingPackageCategories,
    MissingInheritedCategories,
    NestedFacadePackage,
    MissingGitRepository,
    MissingRootManifest,
    MissingCratesDirectory,
    MissingChildCrates,
    MissingRequiredFile,
    MissingRequiredDirectory,
    NonStandardPath,
    MissingToolingSurface,
    MissingGithubCiCdSurface,
    MissingReleaseSurface,
    MissingReleaseCiSurface,
    MissingWorkspaceManifest,
    ReadManifest,
    ParseManifest,
    InvalidManifest,
    MissingPackage,
    MissingPackageField,
    InvalidPackageName,
    InvalidPackageVersion,
    InvalidPackagePublish,
    MissingPackagePublish,
    MissingPackageInheritedField,
    PackageFieldNotInherited,
}

/// The stable kebab-case id of a code.
pub open spec fn code_id(c: FacadeIssueCode) -> Seq<char> {
    match c {
        FacadeIssueCode::MissingStandardWorkspaceMember => "missing-standard-workspace-member"@,
        FacadeIssueCode::NonStandardWorkspaceMembers => "non-standard-workspace-members"@,
        FacadeIssueCode::MissingWorkspace => "missing-workspace"@,
        FacadeIssueCode::MissingWorkspaceMembers => "missing-workspace-members"@,
        FacadeIssueCode::InvalidWorkspaceMembers => "invalid-workspace-members"@,
        FacadeIssueCode::MissingWorkspaceResolver => "missing-workspace-resolver"@,
        FacadeIssueCode::InvalidWorkspaceResolver => "invalid-workspace-resolver"@,
        FacadeIssueCode::MissingWorkspacePackage => "missing-workspace-package"@,
        FacadeIssueCode::MissingWorkspacePackageField => "missing-workspace-package-field"@,
        FacadeIssueCode::InvalidWorkspaceRepository => "invalid-workspace-repository"@,
        FacadeIssueCode::MissingWorkspaceDependencies => "missing-workspace-dependencies"@,
        FacadeIssueCode::MissingWorkspaceDependency => "missing-workspace-dependency"@,
        FacadeIssueCode::InvalidWorkspaceDependencyShape => "invalid-workspace-dependency-shape"@,
        FacadeIssueCode::InvalidWorkspaceDependencyPath => "invalid-workspace-dependency-path"@,
        FacadeIssueCode::MissingWorkspaceDependencyPath => "missing-workspace-dependency-path"@,
        FacadeIssueCode::MissingWorkspaceDependencyVersion => "missing-workspace-dependency-version"@,
        FacadeIssueCode::InvalidWorkspaceDependencyVersion => "invalid-workspace-dependency-version"@,
        FacadeIssueCode::MismatchedWorkspaceDependencyVersion => "mismatched-workspace-dependency-version"@,
        FacadeIssueCode::OrphanWorkspaceDependencyPath => "orphan-workspace-dependency-path"@,
        FacadeIssueCode::MissingWorkspaceUnsafeCodePolicy => "missing-workspace-unsafe-code-policy"@,
        FacadeIssueCode::InvalidWorkspaceUnsafeCodePolicy => "invalid-workspace-unsafe-code-policy"@,
        FacadeIssueCode::MissingWorkspaceClippyLints => "missing-workspace-clippy-lints"@,
        FacadeIssueCode::MissingFacadeDependencies => "missing-facade-dependencies"@,
        FacadeIssueCode::MissingFacadeChildDependency => "missing-facade-child-dependency"@,
        FacadeIssueCode::InvalidFacadeChildDependency => "invalid-facade-child-dependency"@,
        FacadeIssueCode::MissingFacadeChildDependencyOptional => "missing-facade-child-dependency-optional"@,
        FacadeIssueCode::MissingFacadeFeatures => "missing-facade-features"@,
        FacadeIssueCode::InvalidFacadeDefaultFeatures => "invalid-facade-default-features"@,
        FacadeIssueCode::MissingFacadeDefaultFeatures => "missing-facade-default-features"@,
        FacadeIssueCode::MissingFacadeFullFeature => "missing-facade-full-feature"@,
        FacadeIssueCode::MissingFullFeatureMember => "missing-full-feature-member"@,
        FacadeIssueCode::MissingFacadeChildFeature => "missing-facade-child-feature"@,
        FacadeIssueCode::InvalidFacadeChildFeature => "invalid-facade-child-feature"@,
        FacadeIssueCode::InvalidPackageHomepage => "invalid-package-homepage"@,
        FacadeIssueCode::InvalidPackageDocumentation => "invalid-package-documentation"@,
        FacadeIssueCode::MissingPackageReadmeFile => "missing-package-readme-file"@,
        FacadeIssueCode::MissingDocsRsAllFeatures => "missing-docs-rs-all-features"@,
        FacadeIssueCode::InvalidDocsRsAllFeatures => "invalid-docs-rs-all-features"@,
        FacadeIssueCode::MissingLintsWorkspace => "missing-lints-workspace"@,
        FacadeIssueCode::PackageNameDirectoryMismatch => "package-name-directory-mismatch"@,
        FacadeIssueCode::InvalidFacadePackageName => "invalid-facade-package-name"@,
        FacadeIssueCode::InvalidChildPackageName => "invalid-child-package-name"@,
        FacadeIssueCode::MissingCrateLib => "missing-crate-lib"@,
        FacadeIssueCode::MissingFacadePrelude => "missing-facade-prelude"@,
        FacadeIssueCode::InvalidCategorySlug => "invalid-category-slug"@,
        FacadeIssueCode::TooManyCategories => "too-many-categories"@,
        FacadeIssueCode::DuplicateCategory => "duplicate-category"@,
        FacadeIssueCode::InvalidCategoriesShape => "invalid-categories-shape"@,
        FacadeIssueCode::InvalidCategoryValue => "invalid-category-value"@,
        FacadeIssueCode::MissingWorkspaceCategories => "missing-workspace-categories"@,
        FacadeIssueCode::MissingPackageCategories => "missing-package-categories"@,
        FacadeIssueCode::MissingInheritedCategories => "missing-inherited-categories"@,
        FacadeIssueCode::NestedFacadePackage => "nested-facade-package"@,
        FacadeIssueCode::MissingGitRepository => "missing-git-repository"@,
        FacadeIssueCode::MissingRootManifest => "missing-root-manifest"@,
        FacadeIssueCode::MissingCratesDirectory => "missing-crates-directory"@,
        FacadeIssueCode::MissingChildCrates => "missing-child-crates"@,
        FacadeIssueCode::MissingRequiredFile => "missing-required-file"@,
        FacadeIssueCode::MissingRequiredDirectory => "missing-required-directory"@,
        FacadeIssueCode::NonStandardPath => "non-standard-path"@,
        FacadeIssueCode::MissingToolingSurface => "missing-tooling-surface"@,
        FacadeIssueCode::MissingGithubCiCdSurface => "missing-github-ci-cd-surface"@,
        FacadeIssueCode::MissingReleaseSurface => "missing-release-surface"@,
        FacadeIssueCode::MissingReleaseCiSurface => "missing-release-ci-surface"@,
        FacadeIssueCode::MissingWorkspaceManifest => "missing-workspace-manifest"@,
        FacadeIssueCode::ReadManifest => "read-manifest"@,
        FacadeIssueCode::ParseManifest => "parse-manifest"@,
        FacadeIssueCode::InvalidManifest => "invalid-manifest"@,
        FacadeIssueCode::MissingPackage => "missing-package"@,
        FacadeIssueCode::MissingPackageField => "missing-package-field"@,
        FacadeIssueCode::InvalidPackageName => "invalid-package-name"@,
        FacadeIssueCode::InvalidPackageVersion => "invalid-package-version"@,
        FacadeIssueCode::InvalidPackagePublish => "invalid-package-publish"@,
        FacadeIssueCode::MissingPackagePublish => "missing-package-publish"@,
        FacadeIssueCode::MissingPackageInheritedField => "missing-package-inherited-field"@,
        FacadeIssueCode::PackageFieldNotInherited => "package-field-not-inherited"@,
    }
}

/// The bucket a code belongs to.
pub open spec fn code_bucket(c: FacadeIssueCode) -> FacadeIssueBucket {
    match c {
        FacadeIssueCode::MissingStandardWorkspaceMember => FacadeIssueBucket::WorkspaceShape,
        FacadeIssueCode::NonStandardWorkspaceMembers => FacadeIssueBucket::WorkspaceShape,
        FacadeIssueCode::MissingWorkspace => FacadeIssueBucket::WorkspaceShape,
        FacadeIssueCode::MissingWorkspaceMembers => FacadeIssueBucket::WorkspaceShape,
        FacadeIssueCode::InvalidWorkspaceMembers => FacadeIssueBucket::WorkspaceShape,
        FacadeIssueCode::MissingWorkspaceResolver => FacadeIssueBucket::WorkspaceShape,
        FacadeIssueCode::InvalidWorkspaceResolver => FacadeIssueBucket::WorkspaceShape,
        FacadeIssueCode::MissingWorkspacePackage => FacadeIssueBucket::WorkspaceShape,
        FacadeIssueCode::MissingWorkspacePackageField => FacadeIssueBucket::WorkspaceShape,
        FacadeIssueCode::InvalidWorkspaceRepository => FacadeIssueBucket::WorkspaceShape,
        FacadeIssueCode::MissingWorkspaceDependencies => FacadeIssueBucket::WorkspaceShape,
        FacadeIssueCode::MissingWorkspaceDependency => FacadeIssueBucket::WorkspaceShape,
        FacadeIssueCode::InvalidWorkspaceDependencyShape => FacadeIssueBucket::WorkspaceShape,
        FacadeIssueCode::InvalidWorkspaceDependencyPath => FacadeIssueBucket::WorkspaceShape,
        FacadeIssueCode::MissingWorkspaceDependencyPath => FacadeIssueBucket::WorkspaceShape,
        FacadeIssueCode::MissingWorkspaceDependencyVersion => FacadeIssueBucket::WorkspaceShape,
        FacadeIssueCode::InvalidWorkspaceDependencyVersion => FacadeIssueBucket::WorkspaceShape,
        FacadeIssueCode::MismatchedWorkspaceDependencyVersion => FacadeIssueBucket::WorkspaceShape,
        FacadeIssueCode::OrphanWorkspaceDependencyPath => FacadeIssueBucket::WorkspaceShape,
        FacadeIssueCode::MissingWorkspaceUnsafeCodePolicy => FacadeIssueBucket::WorkspaceShape,
        FacadeIssueCode::InvalidWorkspaceUnsafeCodePolicy => FacadeIssueBucket::WorkspaceShape,
        FacadeIssueCode::MissingWorkspaceClippyLints => FacadeIssueBucket::WorkspaceShape,
        FacadeIssueCode::MissingFacadeDependencies => FacadeIssueBucket::FacadeWiring,
        FacadeIssueCode::MissingFacadeChildDependency => FacadeIssueBucket::FacadeWiring,
        FacadeIssueCode::InvalidFacadeChildDependency => FacadeIssueBucket::FacadeWiring,
        FacadeIssueCode::MissingFacadeChildDependencyOptional => FacadeIssueBucket::FacadeWiring,
        FacadeIssueCode::MissingFacadeFeatures => FacadeIssueBucket::FacadeWiring,
        FacadeIssueCode::InvalidFacadeDefaultFeatures => FacadeIssueBucket::FacadeWiring,
        FacadeIssueCode::MissingFacadeDefaultFeatures => FacadeIssueBucket::FacadeWiring,
        FacadeIssueCode::MissingFacadeFullFeature => FacadeIssueBucket::FacadeWiring,
        FacadeIssueCode::MissingFullFeatureMember => FacadeIssueBucket::FacadeWiring,
        FacadeIssueCode::MissingFacadeChildFeature => FacadeIssueBucket::FacadeWiring,
        FacadeIssueCode::InvalidFacadeChildFeature => FacadeIssueBucket::FacadeWiring,
        FacadeIssueCode::InvalidPackageHomepage => FacadeIssueBucket::PackageShape,
        FacadeIssueCode::InvalidPackageDocumentation => FacadeIssueBucket::PackageShape,
        FacadeIssueCode::MissingPackageReadmeFile => FacadeIssueBucket::PackageShape,
        FacadeIssueCode::MissingDocsRsAllFeatures => FacadeIssueBucket::PackageShape,
        FacadeIssueCode::InvalidDocsRsAllFeatures => FacadeIssueBucket::PackageShape,
        FacadeIssueCode::MissingLintsWorkspace => FacadeIssueBucket::PackageShape,
        FacadeIssueCode::PackageNameDirectoryMismatch => FacadeIssueBucket::PackageShape,
        FacadeIssueCode::InvalidFacadePackageName => FacadeIssueBucket::PackageShape,
        FacadeIssueCode::InvalidChildPackageName => FacadeIssueBucket::PackageShape,
        FacadeIssueCode::MissingCrateLib => FacadeIssueBucket::PackageShape,
        FacadeIssueCode::MissingFacadePrelude => FacadeIssueBucket::PackageShape,
        FacadeIssueCode::InvalidCategorySlug => FacadeIssueBucket::CategoryMetadata,
        FacadeIssueCode::TooManyCategories => FacadeIssueBucket::CategoryMetadata,
        FacadeIssueCode::DuplicateCategory => FacadeIssueBucket::CategoryMetadata,
        FacadeIssueCode::InvalidCategoriesShape => FacadeIssueBucket::CategoryMetadata,
        FacadeIssueCode::InvalidCategoryValue => FacadeIssueBucket::CategoryMetadata,
        FacadeIssueCode::MissingWorkspaceCategories => FacadeIssueBucket::CategoryMetadata,
        FacadeIssueCode::MissingPackageCategories => FacadeIssueBucket::CategoryMetadata,
        FacadeIssueCode::MissingInheritedCategories => FacadeIssueBucket::CategoryMetadata,
        FacadeIssueCode::NestedFacadePackage => FacadeIssueBucket::RepositoryShape,
        FacadeIssueCode::MissingGitRepository => FacadeIssueBucket::RepositoryShape,
        FacadeIssueCode::MissingRootManifest => FacadeIssueBucket::RepositoryShape,
        FacadeIssueCode::MissingCratesDirectory => FacadeIssueBucket::RepositoryShape,
        FacadeIssueCode::MissingChildCrates => FacadeIssueBucket::RepositoryShape,
        FacadeIssueCode::MissingRequiredFile => FacadeIssueBucket::RepositoryShape,
        FacadeIssueCode::MissingRequiredDirectory => FacadeIssueBucket::RepositoryShape,
        FacadeIssueCode::NonStandardPath => FacadeIssueBucket::RepositoryShape,
        FacadeIssueCode::MissingToolingSurface => FacadeIssueBucket::ToolingSurface,
        FacadeIssueCode::MissingGithubCiCdSurface => FacadeIssueBucket::ToolingSurface,
        FacadeIssueCode::MissingReleaseSurface => FacadeIssueBucket::ReleaseSurface,
        FacadeIssueCode::MissingReleaseCiSurface => FacadeIssueBucket::ReleaseSurface,
        FacadeIssueCode::MissingWorkspaceManifest => FacadeIssueBucket::WorkspaceShape,
        FacadeIssueCode::ReadManifest => FacadeIssueBucket::PackageShape,
        FacadeIssueCode::ParseManifest => FacadeIssueBucket::PackageShape,
        FacadeIssueCode::InvalidManifest => FacadeIssueBucket::PackageShape,
        FacadeIssueCode::MissingPackage => FacadeIssueBucket::PackageShape,
        FacadeIssueCode::MissingPackageField => FacadeIssueBucket::PackageShape,
        FacadeIssueCode::InvalidPackageName => FacadeIssueBucket::PackageShape,
        FacadeIssueCode::InvalidPackageVersion => FacadeIssueBucket::PackageShape,
        FacadeIssueCode::InvalidPackagePublish => FacadeIssueBucket::PackageShape,
        FacadeIssueCode::MissingPackagePublish => FacadeIssueBucket::PackageShape,
        FacadeIssueCode::MissingPackageInheritedField => FacadeIssueBucket::PackageShape,
        FacadeIssueCode::PackageFieldNotInherited => FacadeIssueBucket::PackageShape,
    }
}

/// The position of a code in declaration order.
pub open spec fn code_rank(c: FacadeIssueCode) -> nat {
    match c {
        FacadeIssueCode::MissingStandardWorkspaceMember => 0,
        FacadeIssueCode::NonStandardWorkspaceMembers => 1,
        FacadeIssueCode::MissingWorkspace => 2,
        FacadeIssueCode::MissingWorkspaceMembers => 3,
        FacadeIssueCode::InvalidWorkspaceMembers => 4,
        FacadeIssueCode::MissingWorkspaceResolver => 5,
        FacadeIssueCode::InvalidWorkspaceResolver => 6,
        FacadeIssueCode::MissingWorkspacePackage => 7,
        FacadeIssueCode::MissingWorkspacePackageField => 8,
        FacadeIssueCode::InvalidWorkspaceRepository => 9,
        FacadeIssueCode::MissingWorkspaceDependencies => 10,
        FacadeIssueCode::MissingWorkspaceDependency => 11,
        FacadeIssueCode::InvalidWorkspaceDependencyShape => 12,
        FacadeIssueCode::InvalidWorkspaceDependencyPath => 13,
        FacadeIssueCode::MissingWorkspaceDependencyPath => 14,
        FacadeIssueCode::MissingWorkspaceDependencyVersion => 15,
        FacadeIssueCode::InvalidWorkspaceDependencyVersion => 16,
        FacadeIssueCode::MismatchedWorkspaceDependencyVersion => 17,
        FacadeIssueCode::OrphanWorkspaceDependencyPath => 18,
        FacadeIssueCode::MissingWorkspaceUnsafeCodePolicy => 19,
        FacadeIssueCode::InvalidWorkspaceUnsafeCodePolicy => 20,
        FacadeIssueCode::MissingWorkspaceClippyLints => 21,
        FacadeIssueCode::MissingFacadeDependencies => 22,
        FacadeIssueCode::MissingFacadeChildDependency => 23,
        FacadeIssueCode::InvalidFacadeChildDependency => 24,
        FacadeIssueCode::MissingFacadeChildDependencyOptional => 25,
        FacadeIssueCode::MissingFacadeFeatures => 26,
        FacadeIssueCode::InvalidFacadeDefaultFeatures => 27,
        FacadeIssueCode::MissingFacadeDefaultFeatures => 28,
        FacadeIssueCode::MissingFacadeFullFeature => 29,
        FacadeIssueCode::MissingFullFeatureMember => 30,
        FacadeIssueCode::MissingFacadeChildFeature => 31,
        FacadeIssueCode::InvalidFacadeChildFeature => 32,
        FacadeIssueCode::InvalidPackageHomepage => 33,
        FacadeIssueCode::InvalidPackageDocumentation => 34,
        FacadeIssueCode::MissingPackageReadmeFile => 35,
        FacadeIssueCode::MissingDocsRsAllFeatures => 36,
        FacadeIssueCode::InvalidDocsRsAllFeatures => 37,
        FacadeIssueCode::MissingLintsWorkspace => 38,
        FacadeIssueCode::PackageNameDirectoryMismatch => 39,
        FacadeIssueCode::InvalidFacadePackageName => 40,
        FacadeIssueCode::InvalidChildPackageName => 41,
        FacadeIssueCode::MissingCrateLib => 42,
        FacadeIssueCode::MissingFacadePrelude => 43,
        FacadeIssueCode::InvalidCategorySlug => 44,
        FacadeIssueCode::TooManyCategories => 45,
        FacadeIssueCode::DuplicateCategory => 46,
        FacadeIssueCode::InvalidCategoriesShape => 47,
        FacadeIssueCode::InvalidCategoryValue => 48,
        FacadeIssueCode::MissingWorkspaceCategories => 49,
        FacadeIssueCode::MissingPackageCategories => 50,
        FacadeIssueCode::MissingInheritedCategories => 51,
        FacadeIssueCode::NestedFacadePackage => 52,
        FacadeIssueCode::MissingGitRepository => 53,
        FacadeIssueCode::MissingRootManifest => 54,
        FacadeIssueCode::MissingCratesDirectory => 55,
        FacadeIssueCode::MissingChildCrates => 56,
        FacadeIssueCode::MissingRequiredFile => 57,
        FacadeIssueCode::MissingRequiredDirectory => 58,
        FacadeIssueCode::NonStandardPath => 59,
        FacadeIssueCode::MissingToolingSurface => 60,
        FacadeIssueCode::MissingGithubCiCdSurface => 61,
        FacadeIssueCode::MissingReleaseSurface => 62,
        FacadeIssueCode::MissingReleaseCiSurface => 63,
        FacadeIssueCode::MissingWorkspaceManifest => 64,
        FacadeIssueCode::ReadManifest => 65,
        FacadeIssueCode::ParseManifest => 66,
        FacadeIssueCode::InvalidManifest => 67,
        FacadeIssueCode::MissingPackage => 68,
        FacadeIssueCode::MissingPackageField => 69,
        FacadeIssueCode::InvalidPackageName => 70,
        FacadeIssueCode::InvalidPackageVersion => 71,
        FacadeIssueCode::InvalidPackagePublish => 72,
        FacadeIssueCode::MissingPackagePublish => 73,
        FacadeIssueCode::MissingPackageInheritedField => 74,
        FacadeIssueCode::PackageFieldNotInherited => 75,
    }
}

/// The number of facade issue codes.
pub const FACADE_ISSUE_CODE_COUNT: usize = 76;

impl FacadeIssueCode {
    /// The stable kebab-case id of the code.
    pub fn as_str(self) -> (id: &'static str)
        ensures
            id@ == code_id(self),
    {
        match self {
            FacadeIssueCode::MissingStandardWorkspaceMember => "missing-standard-workspace-member",
            FacadeIssueCode::NonStandardWorkspaceMembers => "non-standard-workspace-members",
            FacadeIssueCode::MissingWorkspace => "missing-workspace",
            FacadeIssueCode::MissingWorkspaceMembers => "missing-workspace-members",
            FacadeIssueCode::InvalidWorkspaceMembers => "invalid-workspace-members",
            FacadeIssueCode::MissingWorkspaceResolver => "missing-workspace-resolver",
            FacadeIssueCode::InvalidWorkspaceResolver => "invalid-workspace-resolver",
            FacadeIssueCode::MissingWorkspacePackage => "missing-workspace-package",
            FacadeIssueCode::MissingWorkspacePackageField => "missing-workspace-package-field",
            FacadeIssueCode::InvalidWorkspaceRepository => "invalid-workspace-repository",
            FacadeIssueCode::MissingWorkspaceDependencies => "missing-workspace-dependencies",
            FacadeIssueCode::MissingWorkspaceDependency => "missing-workspace-dependency",
            FacadeIssueCode::InvalidWorkspaceDependencyShape => "invalid-workspace-dependency-shape",
            FacadeIssueCode::InvalidWorkspaceDependencyPath => "invalid-workspace-dependency-path",
            FacadeIssueCode::MissingWorkspaceDependencyPath => "missing-workspace-dependency-path",
            FacadeIssueCode::MissingWorkspaceDependencyVersion => "missing-workspace-dependency-version",
            FacadeIssueCode::InvalidWorkspaceDependencyVersion => "invalid-workspace-dependency-version",
            FacadeIssueCode::MismatchedWorkspaceDependencyVersion => "mismatched-workspace-dependency-version",
            FacadeIssueCode::OrphanWorkspaceDependencyPath => "orphan-workspace-dependency-path",
            FacadeIssueCode::MissingWorkspaceUnsafeCodePolicy => "missing-workspace-unsafe-code-policy",
            FacadeIssueCode::InvalidWorkspaceUnsafeCodePolicy => "invalid-workspace-unsafe-code-policy",
            FacadeIssueCode::MissingWorkspaceClippyLints => "missing-workspace-clippy-lints",
            FacadeIssueCode::MissingFacadeDependencies => "missing-facade-dependencies",
            FacadeIssueCode::MissingFacadeChildDependency => "missing-facade-child-dependency",
            FacadeIssueCode::InvalidFacadeChildDependency => "invalid-facade-child-dependency",
            FacadeIssueCode::MissingFacadeChildDependencyOptional => "missing-facade-child-dependency-optional",
            FacadeIssueCode::MissingFacadeFeatures => "missing-facade-features",
            FacadeIssueCode::InvalidFacadeDefaultFeatures => "invalid-facade-default-features",
            FacadeIssueCode::MissingFacadeDefaultFeatures => "missing-facade-default-features",
            FacadeIssueCode::MissingFacadeFullFeature => "missing-facade-full-feature",
            FacadeIssueCode::MissingFullFeatureMember => "missing-full-feature-member",
            FacadeIssueCode::MissingFacadeChildFeature => "missing-facade-child-feature",
            FacadeIssueCode::InvalidFacadeChildFeature => "invalid-facade-child-feature",
            FacadeIssueCode::InvalidPackageHomepage => "invalid-package-homepage",
            FacadeIssueCode::InvalidPackageDocumentation => "invalid-package-documentation",
            FacadeIssueCode::MissingPackageReadmeFile => "missing-package-readme-file",
            FacadeIssueCode::MissingDocsRsAllFeatures => "missing-docs-rs-all-features",
            FacadeIssueCode::InvalidDocsRsAllFeatures => "invalid-docs-rs-all-features",
            FacadeIssueCode::MissingLintsWorkspace => "missing-lints-workspace",
            FacadeIssueCode::PackageNameDirectoryMismatch => "package-name-directory-mismatch",
            FacadeIssueCode::InvalidFacadePackageName => "invalid-facade-package-name",
            FacadeIssueCode::InvalidChildPackageName => "invalid-child-package-name",
            FacadeIssueCode::MissingCrateLib => "missing-crate-lib",
            FacadeIssueCode::MissingFacadePrelude => "missing-facade-prelude",
            FacadeIssueCode::InvalidCategorySlug => "invalid-category-slug",
            FacadeIssueCode::TooManyCategories => "too-many-categories",
            FacadeIssueCode::DuplicateCategory => "duplicate-category",
            FacadeIssueCode::InvalidCategoriesShape => "invalid-categories-shape",
            FacadeIssueCode::InvalidCategoryValue => "invalid-category-value",
            FacadeIssueCode::MissingWorkspaceCategories => "missing-workspace-categories",
            FacadeIssueCode::MissingPackageCategories => "missing-package-categories",
            FacadeIssueCode::MissingInheritedCategories => "missing-inherited-categories",
            FacadeIssueCode::NestedFacadePackage => "nested-facade-package",
            FacadeIssueCode::MissingGitRepository => "missing-git-repository",
            FacadeIssueCode::MissingRootManifest => "missing-root-manifest",
            FacadeIssueCode::MissingCratesDirectory => "missing-crates-directory",
            FacadeIssueCode::MissingChildCrates => "missing-child-crates",
            FacadeIssueCode::MissingRequiredFile => "missing-required-file",
            FacadeIssueCode::MissingRequiredDirectory => "missing-required-directory",
            FacadeIssueCode::NonStandardPath => "non-standard-path",
            FacadeIssueCode::MissingToolingSurface => "missing-tooling-surface",
            FacadeIssueCode::MissingGithubCiCdSurface => "missing-github-ci-cd-surface",
            FacadeIssueCode::MissingReleaseSurface => "missing-release-surface",
            FacadeIssueCode::MissingReleaseCiSurface => "missing-release-ci-surface",
            FacadeIssueCode::MissingWorkspaceManifest => "missing-workspace-manifest",
            FacadeIssueCode::ReadManifest => "read-manifest",
            FacadeIssueCode::ParseManifest => "parse-manifest",
            FacadeIssueCode::InvalidManifest => "invalid-manifest",
            FacadeIssueCode::MissingPackage => "missing-package",
            FacadeIssueCode::MissingPackageField => "missing-package-field",
            FacadeIssueCode::InvalidPackageName => "invalid-package-name",
            FacadeIssueCode::InvalidPackageVersion => "invalid-package-version",
            FacadeIssueCode::InvalidPackagePublish => "invalid-package-publish",
            FacadeIssueCode::MissingPackagePublish => "missing-package-publish",
            FacadeIssueCode::MissingPackageInheritedField => "missing-package-inherited-field",
            FacadeIssueCode::PackageFieldNotInherited => "package-field-not-inherited",
        }
    }

    /// The bucket the code belongs to.
    pub fn bucket(self) -> (b: FacadeIssueBucket)
        ensures
            b == code_bucket(self),
    {
        match self {
            FacadeIssueCode::MissingStandardWorkspaceMember => FacadeIssueBucket::WorkspaceShape,
            FacadeIssueCode::NonStandardWorkspaceMembers => FacadeIssueBucket::WorkspaceShape,
            FacadeIssueCode::MissingWorkspace => FacadeIssueBucket::WorkspaceShape,
            FacadeIssueCode::MissingWorkspaceMembers => FacadeIssueBucket::WorkspaceShape,
            FacadeIssueCode::InvalidWorkspaceMembers => FacadeIssueBucket::WorkspaceShape,
            FacadeIssueCode::MissingWorkspaceResolver => FacadeIssueBucket::WorkspaceShape,
            FacadeIssueCode::InvalidWorkspaceResolver => FacadeIssueBucket::WorkspaceShape,
            FacadeIssueCode::MissingWorkspacePackage => FacadeIssueBucket::WorkspaceShape,
            FacadeIssueCode::MissingWorkspacePackageField => FacadeIssueBucket::WorkspaceShape,
            FacadeIssueCode::InvalidWorkspaceRepository => FacadeIssueBucket::WorkspaceShape,
            FacadeIssueCode::MissingWorkspaceDependencies => FacadeIssueBucket::WorkspaceShape,
            FacadeIssueCode::MissingWorkspaceDependency => FacadeIssueBucket::WorkspaceShape,
            FacadeIssueCode::InvalidWorkspaceDependencyShape => FacadeIssueBucket::WorkspaceShape,
            FacadeIssueCode::InvalidWorkspaceDependencyPath => FacadeIssueBucket::WorkspaceShape,
            FacadeIssueCode::MissingWorkspaceDependencyPath => FacadeIssueBucket::WorkspaceShape,
            FacadeIssueCode::MissingWorkspaceDependencyVersion => FacadeIssueBucket::WorkspaceShape,
            FacadeIssueCode::InvalidWorkspaceDependencyVersion => FacadeIssueBucket::WorkspaceShape,
            FacadeIssueCode::MismatchedWorkspaceDependencyVersion => FacadeIssueBucket::WorkspaceShape,
            FacadeIssueCode::OrphanWorkspaceDependencyPath => FacadeIssueBucket::WorkspaceShape,
            FacadeIssueCode::MissingWorkspaceUnsafeCodePolicy => FacadeIssueBucket::WorkspaceShape,
            FacadeIssueCode::InvalidWorkspaceUnsafeCodePolicy => FacadeIssueBucket::WorkspaceShape,
            FacadeIssueCode::MissingWorkspaceClippyLints => FacadeIssueBucket::WorkspaceShape,
            FacadeIssueCode::MissingFacadeDependencies => FacadeIssueBucket::FacadeWiring,
            FacadeIssueCode::MissingFacadeChildDependency => FacadeIssueBucket::FacadeWiring,
            FacadeIssueCode::InvalidFacadeChildDependency => FacadeIssueBucket::FacadeWiring,
            FacadeIssueCode::MissingFacadeChildDependencyOptional => FacadeIssueBucket::FacadeWiring,
            FacadeIssueCode::MissingFacadeFeatures => FacadeIssueBucket::FacadeWiring,
            FacadeIssueCode::InvalidFacadeDefaultFeatures => FacadeIssueBucket::FacadeWiring,
            FacadeIssueCode::MissingFacadeDefaultFeatures => FacadeIssueBucket::FacadeWiring,
            FacadeIssueCode::MissingFacadeFullFeature => FacadeIssueBucket::FacadeWiring,
            FacadeIssueCode::MissingFullFeatureMember => FacadeIssueBucket::FacadeWiring,
            FacadeIssueCode::MissingFacadeChildFeature => FacadeIssueBucket::FacadeWiring,
            FacadeIssueCode::InvalidFacadeChildFeature => FacadeIssueBucket::FacadeWiring,
            FacadeIssueCode::InvalidPackageHomepage => FacadeIssueBucket::PackageShape,
            FacadeIssueCode::InvalidPackageDocumentation => FacadeIssueBucket::PackageShape,
            FacadeIssueCode::MissingPackageReadmeFile => FacadeIssueBucket::PackageShape,
            FacadeIssueCode::MissingDocsRsAllFeatures => FacadeIssueBucket::PackageShape,
            FacadeIssueCode::InvalidDocsRsAllFeatures => FacadeIssueBucket::PackageShape,
            FacadeIssueCode::MissingLintsWorkspace => FacadeIssueBucket::PackageShape,
            FacadeIssueCode::PackageNameDirectoryMismatch => FacadeIssueBucket::PackageShape,
            FacadeIssueCode::InvalidFacadePackageName => FacadeIssueBucket::PackageShape,
            FacadeIssueCode::InvalidChildPackageName => FacadeIssueBucket::PackageShape,
            FacadeIssueCode::MissingCrateLib => FacadeIssueBucket::PackageShape,
            FacadeIssueCode::MissingFacadePrelude => FacadeIssueBucket::PackageShape,
            FacadeIssueCode::InvalidCategorySlug => FacadeIssueBucket::CategoryMetadata,
            FacadeIssueCode::TooManyCategories => FacadeIssueBucket::CategoryMetadata,
            FacadeIssueCode::DuplicateCategory => FacadeIssueBucket::CategoryMetadata,
            FacadeIssueCode::InvalidCategoriesShape => FacadeIssueBucket::CategoryMetadata,
            FacadeIssueCode::InvalidCategoryValue => FacadeIssueBucket::CategoryMetadata,
            FacadeIssueCode::MissingWorkspaceCategories => FacadeIssueBucket::CategoryMetadata,
            FacadeIssueCode::MissingPackageCategories => FacadeIssueBucket::CategoryMetadata,
            FacadeIssueCode::MissingInheritedCategories => FacadeIssueBucket::CategoryMetadata,
            FacadeIssueCode::NestedFacadePackage => FacadeIssueBucket::RepositoryShape,
            FacadeIssueCode::MissingGitRepository => FacadeIssueBucket::RepositoryShape,
            FacadeIssueCode::MissingRootManifest => FacadeIssueBucket::RepositoryShape,
            FacadeIssueCode::MissingCratesDirectory => FacadeIssueBucket::RepositoryShape,
            FacadeIssueCode::MissingChildCrates => FacadeIssueBucket::RepositoryShape,
            FacadeIssueCode::MissingRequiredFile => FacadeIssueBucket::RepositoryShape,
            FacadeIssueCode::MissingRequiredDirectory => FacadeIssueBucket::RepositoryShape,
            FacadeIssueCode::NonStandardPath => FacadeIssueBucket::RepositoryShape,
            FacadeIssueCode::MissingToolingSurface => FacadeIssueBucket::ToolingSurface,
            FacadeIssueCode::MissingGithubCiCdSurface => FacadeIssueBucket::ToolingSurface,
            FacadeIssueCode::MissingReleaseSurface => FacadeIssueBucket::ReleaseSurface,
            FacadeIssueCode::MissingReleaseCiSurface => FacadeIssueBucket::ReleaseSurface,
            FacadeIssueCode::MissingWorkspaceManifest => FacadeIssueBucket::WorkspaceShape,
            FacadeIssueCode::ReadManifest => FacadeIssueBucket::PackageShape,
            FacadeIssueCode::ParseManifest => FacadeIssueBucket::PackageShape,
            FacadeIssueCode::InvalidManifest => FacadeIssueBucket::PackageShape,
            FacadeIssueCode::MissingPackage => FacadeIssueBucket::PackageShape,
            FacadeIssueCode::MissingPackageField => FacadeIssueBucket::PackageShape,
            FacadeIssueCode::InvalidPackageName => FacadeIssueBucket::PackageShape,
            FacadeIssueCode::InvalidPackageVersion => FacadeIssueBucket::PackageShape,
            FacadeIssueCode::InvalidPackagePublish => FacadeIssueBucket::PackageShape,
            FacadeIssueCode::MissingPackagePublish => FacadeIssueBucket::PackageShape,
            FacadeIssueCode::MissingPackageInheritedField => FacadeIssueBucket::PackageShape,
            FacadeIssueCode::PackageFieldNotInherited => FacadeIssueBucket::PackageShape,
        }
    }

    /// The position of the code in declaration order.
    pub fn rank(self) -> (r: u8)
        ensures
            r as nat == code_rank(self),
    {
        match self {
            FacadeIssueCode::MissingStandardWorkspaceMember => 0,
            FacadeIssueCode::NonStandardWorkspaceMembers => 1,
            FacadeIssueCode::MissingWorkspace => 2,
            FacadeIssueCode::MissingWorkspaceMembers => 3,
            FacadeIssueCode::InvalidWorkspaceMembers => 4,
            FacadeIssueCode::MissingWorkspaceResolver => 5,
            FacadeIssueCode::InvalidWorkspaceResolver => 6,
            FacadeIssueCode::MissingWorkspacePackage => 7,
            FacadeIssueCode::MissingWorkspacePackageField => 8,
            FacadeIssueCode::InvalidWorkspaceRepository => 9,
            FacadeIssueCode::MissingWorkspaceDependencies => 10,
            FacadeIssueCode::MissingWorkspaceDependency => 11,
            FacadeIssueCode::InvalidWorkspaceDependencyShape => 12,
            FacadeIssueCode::InvalidWorkspaceDependencyPath => 13,
            FacadeIssueCode::MissingWorkspaceDependencyPath => 14,
            FacadeIssueCode::MissingWorkspaceDependencyVersion => 15,
            FacadeIssueCode::InvalidWorkspaceDependencyVersion => 16,
            FacadeIssueCode::MismatchedWorkspaceDependencyVersion => 17,
            FacadeIssueCode::OrphanWorkspaceDependencyPath => 18,
            FacadeIssueCode::MissingWorkspaceUnsafeCodePolicy => 19,
            FacadeIssueCode::InvalidWorkspaceUnsafeCodePolicy => 20,
            FacadeIssueCode::MissingWorkspaceClippyLints => 21,
            FacadeIssueCode::MissingFacadeDependencies => 22,
            FacadeIssueCode::MissingFacadeChildDependency => 23,
            FacadeIssueCode::InvalidFacadeChildDependency => 24,
            FacadeIssueCode::MissingFacadeChildDependencyOptional => 25,
            FacadeIssueCode::MissingFacadeFeatures => 26,
            FacadeIssueCode::InvalidFacadeDefaultFeatures => 27,
            FacadeIssueCode::MissingFacadeDefaultFeatures => 28,
            FacadeIssueCode::MissingFacadeFullFeature => 29,
            FacadeIssueCode::MissingFullFeatureMember => 30,
            FacadeIssueCode::MissingFacadeChildFeature => 31,
            FacadeIssueCode::InvalidFacadeChildFeature => 32,
            FacadeIssueCode::InvalidPackageHomepage => 33,
            FacadeIssueCode::InvalidPackageDocumentation => 34,
            FacadeIssueCode::MissingPackageReadmeFile => 35,
            FacadeIssueCode::MissingDocsRsAllFeatures => 36,
            FacadeIssueCode::InvalidDocsRsAllFeatures => 37,
            FacadeIssueCode::MissingLintsWorkspace => 38,
            FacadeIssueCode::PackageNameDirectoryMismatch => 39,
            FacadeIssueCode::InvalidFacadePackageName => 40,
            FacadeIssueCode::InvalidChildPackageName => 41,
            FacadeIssueCode::MissingCrateLib => 42,
            FacadeIssueCode::MissingFacadePrelude => 43,
            FacadeIssueCode::InvalidCategorySlug => 44,
            FacadeIssueCode::TooManyCategories => 45,
            FacadeIssueCode::DuplicateCategory => 46,
            FacadeIssueCode::InvalidCategoriesShape => 47,
            FacadeIssueCode::InvalidCategoryValue => 48,
            FacadeIssueCode::MissingWorkspaceCategories => 49,
            FacadeIssueCode::MissingPackageCategories => 50,
            FacadeIssueCode::MissingInheritedCategories => 51,
            FacadeIssueCode::NestedFacadePackage => 52,
            FacadeIssueCode::MissingGitRepository => 53,
            FacadeIssueCode::MissingRootManifest => 54,
            FacadeIssueCode::MissingCratesDirectory => 55,
            FacadeIssueCode::MissingChildCrates => 56,
            FacadeIssueCode::MissingRequiredFile => 57,
            FacadeIssueCode::MissingRequiredDirectory => 58,
            FacadeIssueCode::NonStandardPath => 59,
            FacadeIssueCode::MissingToolingSurface => 60,
            FacadeIssueCode::MissingGithubCiCdSurface => 61,
            FacadeIssueCode::MissingReleaseSurface => 62,
            FacadeIssueCode::MissingReleaseCiSurface => 63,
            FacadeIssueCode::MissingWorkspaceManifest => 64,
            FacadeIssueCode::ReadManifest => 65,
            FacadeIssueCode::ParseManifest => 66,
            FacadeIssueCode::InvalidManifest => 67,
            FacadeIssueCode::MissingPackage => 68,
            FacadeIssueCode::MissingPackageField => 69,
            FacadeIssueCode::InvalidPackageName => 70,
            FacadeIssueCode::InvalidPackageVersion => 71,
            FacadeIssueCode::InvalidPackagePublish => 72,
            FacadeIssueCode::MissingPackagePublish => 73,
            FacadeIssueCode::MissingPackageInheritedField => 74,
            FacadeIssueCode::PackageFieldNotInherited => 75,
        }
    }

    /// The code whose id is `id`, if any.
    pub fn from_id(id: &str) -> (code: Option<FacadeIssueCode>)
        ensures
            match code {
                Some(c) => code_id(c) == id@,
                None => forall|c: FacadeIssueCode| #[trigger] code_id(c) != id@,
            },
    {
        if str_eq(id, "missing-standard-workspace-member") {
            return Some(FacadeIssueCode::MissingStandardWorkspaceMember);
        }
        if str_eq(id, "non-standard-workspace-members") {
            return Some(FacadeIssueCode::NonStandardWorkspaceMembers);
        }
        if str_eq(id, "missing-workspace") {
            return Some(FacadeIssueCode::MissingWorkspace);
        }
        if str_eq(id, "missing-workspace-members") {
            return Some(FacadeIssueCode::MissingWorkspaceMembers);
        }
        if str_eq(id, "invalid-workspace-members") {
            return Some(FacadeIssueCode::InvalidWorkspaceMembers);
        }
        if str_eq(id, "missing-workspace-resolver") {
            return Some(FacadeIssueCode::MissingWorkspaceResolver);
        }
        if str_eq(id, "invalid-workspace-resolver") {
            return Some(FacadeIssueCode::InvalidWorkspaceResolver);
        }
        if str_eq(id, "missing-workspace-package") {
            return Some(FacadeIssueCode::MissingWorkspacePackage);
        }
        if str_eq(id, "missing-workspace-package-field") {
            return Some(FacadeIssueCode::MissingWorkspacePackageField);
        }
        if str_eq(id, "invalid-workspace-repository") {
            return Some(FacadeIssueCode::InvalidWorkspaceRepository);
        }
        if str_eq(id, "missing-workspace-dependencies") {
            return Some(FacadeIssueCode::MissingWorkspaceDependencies);
        }
        if str_eq(id, "missing-workspace-dependency") {
            return Some(FacadeIssueCode::MissingWorkspaceDependency);
        }
        if str_eq(id, "invalid-workspace-dependency-shape") {
            return Some(FacadeIssueCode::InvalidWorkspaceDependencyShape);
        }
        if str_eq(id, "invalid-workspace-dependency-path") {
            return Some(FacadeIssueCode::InvalidWorkspaceDependencyPath);
        }
        if str_eq(id, "missing-workspace-dependency-path") {
            return Some(FacadeIssueCode::MissingWorkspaceDependencyPath);
        }
        if str_eq(id, "missing-workspace-dependency-version") {
            return Some(FacadeIssueCode::MissingWorkspaceDependencyVersion);
        }
        if str_eq(id, "invalid-workspace-dependency-version") {
            return Some(FacadeIssueCode::InvalidWorkspaceDependencyVersion);
        }
        if str_eq(id, "mismatched-workspace-dependency-version") {
            return Some(FacadeIssueCode::MismatchedWorkspaceDependencyVersion);
        }
        if str_eq(id, "orphan-workspace-dependency-path") {
            return Some(FacadeIssueCode::OrphanWorkspaceDependencyPath);
        }
        if str_eq(id, "missing-workspace-unsafe-code-policy") {
            return Some(FacadeIssueCode::MissingWorkspaceUnsafeCodePolicy);
        }
        if str_eq(id, "invalid-workspace-unsafe-code-policy") {
            return Some(FacadeIssueCode::InvalidWorkspaceUnsafeCodePolicy);
        }
        if str_eq(id, "missing-workspace-clippy-lints") {
            return Some(FacadeIssueCode::MissingWorkspaceClippyLints);
        }
        if str_eq(id, "missing-facade-dependencies") {
            return Some(FacadeIssueCode::MissingFacadeDependencies);
        }
        if str_eq(id, "missing-facade-child-dependency") {
            return Some(FacadeIssueCode::MissingFacadeChildDependency);
        }
        if str_eq(id, "invalid-facade-child-dependency") {
            return Some(FacadeIssueCode::InvalidFacadeChildDependency);
        }
        if str_eq(id, "missing-facade-child-dependency-optional") {
            return Some(FacadeIssueCode::MissingFacadeChildDependencyOptional);
        }
        if str_eq(id, "missing-facade-features") {
            return Some(FacadeIssueCode::MissingFacadeFeatures);
        }
        if str_eq(id, "invalid-facade-default-features") {
            return Some(FacadeIssueCode::InvalidFacadeDefaultFeatures);
        }
        if str_eq(id, "missing-facade-default-features") {
            return Some(FacadeIssueCode::MissingFacadeDefaultFeatures);
        }
        if str_eq(id, "missing-facade-full-feature") {
            return Some(FacadeIssueCode::MissingFacadeFullFeature);
        }
        if str_eq(id, "missing-full-feature-member") {
            return Some(FacadeIssueCode::MissingFullFeatureMember);
        }
        if str_eq(id, "missing-facade-child-feature") {
            return Some(FacadeIssueCode::MissingFacadeChildFeature);
        }
        if str_eq(id, "invalid-facade-child-feature") {
            return Some(FacadeIssueCode::InvalidFacadeChildFeature);
        }
        if str_eq(id, "invalid-package-homepage") {
            return Some(FacadeIssueCode::InvalidPackageHomepage);
        }
        if str_eq(id, "invalid-package-documentation") {
            return Some(FacadeIssueCode::InvalidPackageDocumentation);
        }
        if str_eq(id, "missing-package-readme-file") {
            return Some(FacadeIssueCode::MissingPackageReadmeFile);
        }
        if str_eq(id, "missing-docs-rs-all-features") {
            return Some(FacadeIssueCode::MissingDocsRsAllFeatures);
        }
        if str_eq(id, "invalid-docs-rs-all-features") {
            return Some(FacadeIssueCode::InvalidDocsRsAllFeatures);
        }
        if str_eq(id, "missing-lints-workspace") {
            return Some(FacadeIssueCode::MissingLintsWorkspace);
        }
        if str_eq(id, "package-name-directory-mismatch") {
            return Some(FacadeIssueCode::PackageNameDirectoryMismatch);
        }
        if str_eq(id, "invalid-facade-package-name") {
            return Some(FacadeIssueCode::InvalidFacadePackageName);
        }
        if str_eq(id, "invalid-child-package-name") {
            return Some(FacadeIssueCode::InvalidChildPackageName);
        }
        if str_eq(id, "missing-crate-lib") {
            return Some(FacadeIssueCode::MissingCrateLib);
        }
        if str_eq(id, "missing-facade-prelude") {
            return Some(FacadeIssueCode::MissingFacadePrelude);
        }
        if str_eq(id, "invalid-category-slug") {
            return Some(FacadeIssueCode::InvalidCategorySlug);
        }
        if str_eq(id, "too-many-categories") {
            return Some(FacadeIssueCode::TooManyCategories);
        }
        if str_eq(id, "duplicate-category") {
            return Some(FacadeIssueCode::DuplicateCategory);
        }
        if str_eq(id, "invalid-categories-shape") {
            return Some(FacadeIssueCode::InvalidCategoriesShape);
        }
        if str_eq(id, "invalid-category-value") {
            return Some(FacadeIssueCode::InvalidCategoryValue);
        }
        if str_eq(id, "missing-workspace-categories") {
            return Some(FacadeIssueCode::MissingWorkspaceCategories);
        }
        if str_eq(id, "missing-package-categories") {
            return Some(FacadeIssueCode::MissingPackageCategories);
        }
        if str_eq(id, "missing-inherited-categories") {
            return Some(FacadeIssueCode::MissingInheritedCategories);
        }
        if str_eq(id, "nested-facade-package") {
            return Some(FacadeIssueCode::NestedFacadePackage);
        }
        if str_eq(id, "missing-git-repository") {
            return Some(FacadeIssueCode::MissingGitRepository);
        }
        if str_eq(id, "missing-root-manifest") {
            return Some(FacadeIssueCode::MissingRootManifest);
        }
        if str_eq(id, "missing-crates-directory") {
            return Some(FacadeIssueCode::MissingCratesDirectory);
        }
        if str_eq(id, "missing-child-crates") {
            return Some(FacadeIssueCode::MissingChildCrates);
        }
        if str_eq(id, "missing-required-file") {
            return Some(FacadeIssueCode::MissingRequiredFile);
        }
        if str_eq(id, "missing-required-directory") {
            return Some(FacadeIssueCode::MissingRequiredDirectory);
        }
        if str_eq(id, "non-standard-path") {
            return Some(FacadeIssueCode::NonStandardPath);
        }
        if str_eq(id, "missing-tooling-surface") {
            return Some(FacadeIssueCode::MissingToolingSurface);
        }
        if str_eq(id, "missing-github-ci-cd-surface") {
            return Some(FacadeIssueCode::MissingGithubCiCdSurface);
        }
        if str_eq(id, "missing-release-surface") {
            return Some(FacadeIssueCode::MissingReleaseSurface);
        }
        if str_eq(id, "missing-release-ci-surface") {
            return Some(FacadeIssueCode::MissingReleaseCiSurface);
        }
        if str_eq(id, "missing-workspace-manifest") {
            return Some(FacadeIssueCode::MissingWorkspaceManifest);
        }
        if str_eq(id, "read-manifest") {
            return Some(FacadeIssueCode::ReadManifest);
        }
        if str_eq(id, "parse-manifest") {
            return Some(FacadeIssueCode::ParseManifest);
        }
        if str_eq(id, "invalid-manifest") {
            return Some(FacadeIssueCode::InvalidManifest);
        }
        if str_eq(id, "missing-package") {
            return Some(FacadeIssueCode::MissingPackage);
        }
        if str_eq(id, "missing-package-field") {
            return Some(FacadeIssueCode::MissingPackageField);
        }
        if str_eq(id, "invalid-package-name") {
            return Some(FacadeIssueCode::InvalidPackageName);
        }
        if str_eq(id, "invalid-package-version") {
            return Some(FacadeIssueCode::InvalidPackageVersion);
        }
        if str_eq(id, "invalid-package-publish") {
            return Some(FacadeIssueCode::InvalidPackagePublish);
        }
        if str_eq(id, "missing-package-publish") {
            return Some(FacadeIssueCode::MissingPackagePublish);
        }
        if str_eq(id, "missing-package-inherited-field") {
            return Some(FacadeIssueCode::MissingPackageInheritedField);
        }
        if str_eq(id, "package-field-not-inherited") {
            return Some(FacadeIssueCode::PackageFieldNotInherited);
        }
        None
    }
}

/// The refusal of a text that names no facade issue code.
#[derive(Clone, Debug)]
pub struct ParseFacadeIssueCodeError {
    pub value: String,
}

impl ParseFacadeIssueCodeError {
    /// The text of the refusal.
    pub fn message(&self) -> (m: String)
        ensures
            m@ == "unknown facade issue code: "@ + self.value@,
    {
        crate::text::cat2("unknown facade issue code: ", self.value.as_str())
    }
}

/// What reading a facade issue code from `value` gives: the code whose id
/// it is, or the refusal that carries the text where no code has it.
pub open spec fn code_parse_ok(value: Seq<char>, r: Result<FacadeIssueCode, ParseFacadeIssueCodeError>) -> bool {
    match r {
        Ok(c) => code_id(c) == value,
        Err(e) => e.value@ == value && forall|c: FacadeIssueCode| #[trigger] code_id(c) != value,
    }
}

/// Reads a facade issue code from its id.
pub fn parse_code(value: &str) -> (r: Result<FacadeIssueCode, ParseFacadeIssueCodeError>)
    ensures
        code_parse_ok(value@, r),
{
    match FacadeIssueCode::from_id(value) {
        Some(c) => Ok(c),
        None => Err(ParseFacadeIssueCodeError { value: String::from_str(value) }),
    }
}

impl std::str::FromStr for FacadeIssueCode {
    type Err = ParseFacadeIssueCodeError;

    fn from_str(value: &str) -> Result<FacadeIssueCode, ParseFacadeIssueCodeError> {
        parse_code(value)
    }
}


/// The position of a code in declaration order gives the code back, so
/// distinct codes have distinct positions.
pub proof fn lemma_code_rank_inverse(c: FacadeIssueCode)
    ensures
        code_at(code_rank(c) as int) == c,
{
}

/// The code at position `k` of declaration order.
pub open spec fn code_at(k: int) -> FacadeIssueCode {
    if k == 0 {
        FacadeIssueCode::MissingStandardWorkspaceMember
    } else if k == 1 {
        FacadeIssueCode::NonStandardWorkspaceMembers
    } else if k == 2 {
        FacadeIssueCode::MissingWorkspace
    } else if k == 3 {
        FacadeIssueCode::MissingWorkspaceMembers
    } else if k == 4 {
        FacadeIssueCode::InvalidWorkspaceMembers
    } else if k == 5 {
        FacadeIssueCode::MissingWorkspaceResolver
    } else if k == 6 {
        FacadeIssueCode::InvalidWorkspaceResolver
    } else if k == 7 {
        FacadeIssueCode::MissingWorkspacePackage
    } else if k == 8 {
        FacadeIssueCode::MissingWorkspacePackageField
    } else if k == 9 {
        FacadeIssueCode::InvalidWorkspaceRepository
    } else if k == 10 {
        FacadeIssueCode::MissingWorkspaceDependencies
    } else if k == 11 {
        FacadeIssueCode::MissingWorkspaceDependency
    } else if k == 12 {
        FacadeIssueCode::InvalidWorkspaceDependencyShape
    } else if k == 13 {
        FacadeIssueCode::InvalidWorkspaceDependencyPath
    } else if k == 14 {
        FacadeIssueCode::MissingWorkspaceDependencyPath
    } else if k == 15 {
        FacadeIssueCode::MissingWorkspaceDependencyVersion
    } else if k == 16 {
        FacadeIssueCode::InvalidWorkspaceDependencyVersion
    } else if k == 17 {
        FacadeIssueCode::MismatchedWorkspaceDependencyVersion
    } else if k == 18 {
        FacadeIssueCode::OrphanWorkspaceDependencyPath
    } else if k == 19 {
        FacadeIssueCode::MissingWorkspaceUnsafeCodePolicy
    } else if k == 20 {
        FacadeIssueCode::InvalidWorkspaceUnsafeCodePolicy
    } else if k == 21 {
        FacadeIssueCode::MissingWorkspaceClippyLints
    } else if k == 22 {
        FacadeIssueCode::MissingFacadeDependencies
    } else if k == 23 {
        FacadeIssueCode::MissingFacadeChildDependency
    } else if k == 24 {
        FacadeIssueCode::InvalidFacadeChildDependency
    } else if k == 25 {
        FacadeIssueCode::MissingFacadeChildDependencyOptional
    } else if k == 26 {
        FacadeIssueCode::MissingFacadeFeatures
    } else if k == 27 {
        FacadeIssueCode::InvalidFacadeDefaultFeatures
    } else if k == 28 {
        FacadeIssueCode::MissingFacadeDefaultFeatures
    } else if k == 29 {
        FacadeIssueCode::MissingFacadeFullFeature
    } else if k == 30 {
        FacadeIssueCode::MissingFullFeatureMember
    } else if k == 31 {
        FacadeIssueCode::MissingFacadeChildFeature
    } else if k == 32 {
        FacadeIssueCode::InvalidFacadeChildFeature
    } else if k == 33 {
        FacadeIssueCode::InvalidPackageHomepage
    } else if k == 34 {
        FacadeIssueCode::InvalidPackageDocumentation
    } else if k == 35 {
        FacadeIssueCode::MissingPackageReadmeFile
    } else if k == 36 {
        FacadeIssueCode::MissingDocsRsAllFeatures
    } else if k == 37 {
        FacadeIssueCode::InvalidDocsRsAllFeatures
    } else if k == 38 {
        FacadeIssueCode::MissingLintsWorkspace
    } else if k == 39 {
        FacadeIssueCode::PackageNameDirectoryMismatch
    } else if k == 40 {
        FacadeIssueCode::InvalidFacadePackageName
    } else if k == 41 {
        FacadeIssueCode::InvalidChildPackageName
    } else if k == 42 {
        FacadeIssueCode::MissingCrateLib
    } else if k == 43 {
        FacadeIssueCode::MissingFacadePrelude
    } else if k == 44 {
        FacadeIssueCode::InvalidCategorySlug
    } else if k == 45 {
        FacadeIssueCode::TooManyCategories
    } else if k == 46 {
        FacadeIssueCode::DuplicateCategory
    } else if k == 47 {
        FacadeIssueCode::InvalidCategoriesShape
    } else if k == 48 {
        FacadeIssueCode::InvalidCategoryValue
    } else if k == 49 {
        FacadeIssueCode::MissingWorkspaceCategories
    } else if k == 50 {
        FacadeIssueCode::MissingPackageCategories
    } else if k == 51 {
        FacadeIssueCode::MissingInheritedCategories
    } else if k == 52 {
        FacadeIssueCode::NestedFacadePackage
    } else if k == 53 {
        FacadeIssueCode::MissingGitRepository
    } else if k == 54 {
        FacadeIssueCode::MissingRootManifest
    } else if k == 55 {
        FacadeIssueCode::MissingCratesDirectory
    } else if k == 56 {
        FacadeIssueCode::MissingChildCrates
    } else if k == 57 {
        FacadeIssueCode::MissingRequiredFile
    } else if k == 58 {
        FacadeIssueCode::MissingRequiredDirectory
    } else if k == 59 {
        FacadeIssueCode::NonStandardPath
    } else if k == 60 {
        FacadeIssueCode::MissingToolingSurface
    } else if k == 61 {
        FacadeIssueCode::MissingGithubCiCdSurface
    } else if k == 62 {
        FacadeIssueCode::MissingReleaseSurface
    } else if k == 63 {
        FacadeIssueCode::MissingReleaseCiSurface
    } else if k == 64 {
        FacadeIssueCode::MissingWorkspaceManifest
    } else if k == 65 {
        FacadeIssueCode::ReadManifest
    } else if k == 66 {
        FacadeIssueCode::ParseManifest
    } else if k == 67 {
        FacadeIssueCode::InvalidManifest
    } else if k == 68 {
        FacadeIssueCode::MissingPackage
    } else if k == 69 {
        FacadeIssueCode::MissingPackageField
    } else if k == 70 {
        FacadeIssueCode::InvalidPackageName
    } else if k == 71 {
        FacadeIssueCode::InvalidPackageVersion
    } else if k == 72 {
        FacadeIssueCode::InvalidPackagePublish
    } else if k == 73 {
        FacadeIssueCode::MissingPackagePublish
    } else if k == 74 {
        FacadeIssueCode::MissingPackageInheritedField
    } else {
        FacadeIssueCode::PackageFieldNotInherited
    }
}

/// Every facade issue code, in declaration order.
pub fn all_codes() -> (codes: Vec<FacadeIssueCode>)
    ensures
        codes@.len() == FACADE_ISSUE_CODE_COUNT,
        forall|k: int| 0 <= k < codes@.len() ==> #[trigger] codes@[k] == code_at(k) && code_rank(codes@[k]) == k,
        forall|c: FacadeIssueCode| 0 <= #[trigger] code_rank(c) < FACADE_ISSUE_CODE_COUNT && codes@[code_rank(c) as int] == c,
{
    let codes = vec![
        FacadeIssueCode::MissingStandardWorkspaceMember,
        FacadeIssueCode::NonStandardWorkspaceMembers,
        FacadeIssueCode::MissingWorkspace,
        FacadeIssueCode::MissingWorkspaceMembers,
        FacadeIssueCode::InvalidWorkspaceMembers,
        FacadeIssueCode::MissingWorkspaceResolver,
        FacadeIssueCode::InvalidWorkspaceResolver,
        FacadeIssueCode::MissingWorkspacePackage,
        FacadeIssueCode::MissingWorkspacePackageField,
        FacadeIssueCode::InvalidWorkspaceRepository,
        FacadeIssueCode::MissingWorkspaceDependencies,
        FacadeIssueCode::MissingWorkspaceDependency,
        FacadeIssueCode::InvalidWorkspaceDependencyShape,
        FacadeIssueCode::InvalidWorkspaceDependencyPath,
        FacadeIssueCode::MissingWorkspaceDependencyPath,
        FacadeIssueCode::MissingWorkspaceDependencyVersion,
        FacadeIssueCode::InvalidWorkspaceDependencyVersion,
        FacadeIssueCode::MismatchedWorkspaceDependencyVersion,
        FacadeIssueCode::OrphanWorkspaceDependencyPath,
        FacadeIssueCode::MissingWorkspaceUnsafeCodePolicy,
        FacadeIssueCode::InvalidWorkspaceUnsafeCodePolicy,
        FacadeIssueCode::MissingWorkspaceClippyLints,
        FacadeIssueCode::MissingFacadeDependencies,
        FacadeIssueCode::MissingFacadeChildDependency,
        FacadeIssueCode::InvalidFacadeChildDependency,
        FacadeIssueCode::MissingFacadeChildDependencyOptional,
        FacadeIssueCode::MissingFacadeFeatures,
        FacadeIssueCode::InvalidFacadeDefaultFeatures,
        FacadeIssueCode::MissingFacadeDefaultFeatures,
        FacadeIssueCode::MissingFacadeFullFeature,
        FacadeIssueCode::MissingFullFeatureMember,
        FacadeIssueCode::MissingFacadeChildFeature,
        FacadeIssueCode::InvalidFacadeChildFeature,
        FacadeIssueCode::InvalidPackageHomepage,
        FacadeIssueCode::InvalidPackageDocumentation,
        FacadeIssueCode::MissingPackageReadmeFile,
        FacadeIssueCode::MissingDocsRsAllFeatures,
        FacadeIssueCode::InvalidDocsRsAllFeatures,
        FacadeIssueCode::MissingLintsWorkspace,
        FacadeIssueCode::PackageNameDirectoryMismatch,
        FacadeIssueCode::InvalidFacadePackageName,
        FacadeIssueCode::InvalidChildPackageName,
        FacadeIssueCode::MissingCrateLib,
        FacadeIssueCode::MissingFacadePrelude,
        FacadeIssueCode::InvalidCategorySlug,
        FacadeIssueCode::TooManyCategories,
        FacadeIssueCode::DuplicateCategory,
        FacadeIssueCode::InvalidCategoriesShape,
        FacadeIssueCode::InvalidCategoryValue,
        FacadeIssueCode::MissingWorkspaceCategories,
        FacadeIssueCode::MissingPackageCategories,
        FacadeIssueCode::MissingInheritedCategories,
        FacadeIssueCode::NestedFacadePackage,
        FacadeIssueCode::MissingGitRepository,
        FacadeIssueCode::MissingRootManifest,
        FacadeIssueCode::MissingCratesDirectory,
        FacadeIssueCode::MissingChildCrates,
        FacadeIssueCode::MissingRequiredFile,
        FacadeIssueCode::MissingRequiredDirectory,
        FacadeIssueCode::NonStandardPath,
        FacadeIssueCode::MissingToolingSurface,
        FacadeIssueCode::MissingGithubCiCdSurface,
        FacadeIssueCode::MissingReleaseSurface,
        FacadeIssueCode::MissingReleaseCiSurface,
        FacadeIssueCode::MissingWorkspaceManifest,
        FacadeIssueCode::ReadManifest,
        FacadeIssueCode::ParseManifest,
        FacadeIssueCode::InvalidManifest,
        FacadeIssueCode::MissingPackage,
        FacadeIssueCode::MissingPackageField,
        FacadeIssueCode::InvalidPackageName,
        FacadeIssueCode::InvalidPackageVersion,
        FacadeIssueCode::InvalidPackagePublish,
        FacadeIssueCode::MissingPackagePublish,
        FacadeIssueCode::MissingPackageInheritedField,
        FacadeIssueCode::PackageFieldNotInherited,
    ];
    codes
}

/// The position in declaration order of the code whose name is `s`, read
/// off the name's length and characters.
pub open spec fn id_rank(s: Seq<char>) -> nat {
    if s.len() == 13 {
        65
    } else if s.len() == 14 {
        66
    } else if s.len() == 15 {
        68
    } else if s.len() == 16 {
        67
    } else if s.len() == 17 {
        if s[8] == 'c' {
            42
        } else if s[8] == 'd' {
            59
        } else {
            2
        }
    } else if s.len() == 18 {
        46
    } else if s.len() == 19 {
        45
    } else if s.len() == 20 {
        if s[0] == 'i' {
            70
        } else {
            56
        }
    } else if s.len() == 21 {
        if s[10] == 'a' {
            52
        } else if s[10] == 'c' {
            69
        } else if s[10] == 'o' {
            54
        } else if s[10] == 'q' {
            57
        } else {
            44
        }
    } else if s.len() == 22 {
        if s[8] == 'c' {
            48
        } else if s[8] == 'f' {
            43
        } else {
            53
        }
    } else if s.len() == 23 {
        if s[8] == 'f' {
            26
        } else if s[8] == 'l' {
            38
        } else if s[8] == 'p' {
            if s[0] == 'i' {
                if s[16] == 'p' {
                    72
                } else {
                    71
                }
            } else {
                73
            }
        } else if s[8] == 'r' {
            62
        } else {
            60
        }
    } else if s.len() == 24 {
        if s[10] == 'a' {
            55
        } else if s[10] == 'c' {
            33
        } else {
            47
        }
    } else if s.len() == 25 {
        if s[0] == 'i' {
            4
        } else {
            if s[18] == 'm' {
                3
            } else {
                7
            }
        }
    } else if s.len() == 26 {
        if s[18] == '-' {
            63
        } else if s[18] == 'a' {
            41
        } else if s[18] == 'i' {
            58
        } else if s[18] == 'm' {
            64
        } else if s[18] == 'r' {
            if s[0] == 'i' {
                6
            } else {
                5
            }
        } else {
            50
        }
    } else if s.len() == 27 {
        if s[15] == '-' {
            35
        } else if s[15] == 'a' {
            30
        } else if s[15] == 'd' {
            22
        } else if s[15] == 'f' {
            29
        } else if s[15] == 'o' {
            75
        } else {
            40
        }
    } else if s.len() == 28 {
        if s[22] == 'a' {
            if s[0] == 'i' {
                37
            } else {
                36
            }
        } else if s[22] == 'e' {
            if s[0] == 'i' {
                32
            } else {
                31
            }
        } else if s[22] == 'g' {
            if s[8] == 'i' {
                51
            } else {
                49
            }
        } else if s[22] == 'n' {
            11
        } else if s[22] == 's' {
            9
        } else {
            61
        }
    } else if s.len() == 29 {
        34
    } else if s.len() == 30 {
        if s[18] == 'c' {
            21
        } else if s[18] == 'd' {
            10
        } else {
            1
        }
    } else if s.len() == 31 {
        if s[17] == '-' {
            8
        } else if s[17] == 'c' {
            39
        } else if s[17] == 'f' {
            if s[0] == 'i' {
                27
            } else {
                28
            }
        } else if s[17] == 'i' {
            if s[0] == 'i' {
                24
            } else {
                23
            }
        } else {
            74
        }
    } else if s.len() == 32 {
        18
    } else if s.len() == 33 {
        if s[0] == 'i' {
            13
        } else {
            if s[8] == 's' {
                0
            } else {
                14
            }
        }
    } else if s.len() == 34 {
        12
    } else if s.len() == 36 {
        if s[0] == 'i' {
            if s[18] == 'd' {
                16
            } else {
                20
            }
        } else {
            if s[18] == 'd' {
                15
            } else {
                19
            }
        }
    } else if s.len() == 39 {
        17
    } else {
        25
    }
}

proof fn lemma_id_rank(c: FacadeIssueCode)
    ensures
        id_rank(code_id(c)) == code_rank(c),
{
    match c {
        FacadeIssueCode::MissingStandardWorkspaceMember => {
            reveal_strlit("missing-standard-workspace-member");
        },
        FacadeIssueCode::NonStandardWorkspaceMembers => {
            reveal_strlit("non-standard-workspace-members");
        },
        FacadeIssueCode::MissingWorkspace => {
            reveal_strlit("missing-workspace");
        },
        FacadeIssueCode::MissingWorkspaceMembers => {
            reveal_strlit("missing-workspace-members");
        },
        FacadeIssueCode::InvalidWorkspaceMembers => {
            reveal_strlit("invalid-workspace-members");
        },
        FacadeIssueCode::MissingWorkspaceResolver => {
            reveal_strlit("missing-workspace-resolver");
        },
        FacadeIssueCode::InvalidWorkspaceResolver => {
            reveal_strlit("invalid-workspace-resolver");
        },
        FacadeIssueCode::MissingWorkspacePackage => {
            reveal_strlit("missing-workspace-package");
        },
        FacadeIssueCode::MissingWorkspacePackageField => {
            reveal_strlit("missing-workspace-package-field");
        },
        FacadeIssueCode::InvalidWorkspaceRepository => {
            reveal_strlit("invalid-workspace-repository");
        },
        FacadeIssueCode::MissingWorkspaceDependencies => {
            reveal_strlit("missing-workspace-dependencies");
        },
        FacadeIssueCode::MissingWorkspaceDependency => {
            reveal_strlit("missing-workspace-dependency");
        },
        FacadeIssueCode::InvalidWorkspaceDependencyShape => {
            reveal_strlit("invalid-workspace-dependency-shape");
        },
        FacadeIssueCode::InvalidWorkspaceDependencyPath => {
            reveal_strlit("invalid-workspace-dependency-path");
        },
        FacadeIssueCode::MissingWorkspaceDependencyPath => {
            reveal_strlit("missing-workspace-dependency-path");
        },
        FacadeIssueCode::MissingWorkspaceDependencyVersion => {
            reveal_strlit("missing-workspace-dependency-version");
        },
        FacadeIssueCode::InvalidWorkspaceDependencyVersion => {
            reveal_strlit("invalid-workspace-dependency-version");
        },
        FacadeIssueCode::MismatchedWorkspaceDependencyVersion => {
            reveal_strlit("mismatched-workspace-dependency-version");
        },
        FacadeIssueCode::OrphanWorkspaceDependencyPath => {
            reveal_strlit("orphan-workspace-dependency-path");
        },
        FacadeIssueCode::MissingWorkspaceUnsafeCodePolicy => {
            reveal_strlit("missing-workspace-unsafe-code-policy");
        },
        FacadeIssueCode::InvalidWorkspaceUnsafeCodePolicy => {
            reveal_strlit("invalid-workspace-unsafe-code-policy");
        },
        FacadeIssueCode::MissingWorkspaceClippyLints => {
            reveal_strlit("missing-workspace-clippy-lints");
        },
        FacadeIssueCode::MissingFacadeDependencies => {
            reveal_strlit("missing-facade-dependencies");
        },
        FacadeIssueCode::MissingFacadeChildDependency => {
            reveal_strlit("missing-facade-child-dependency");
        },
        FacadeIssueCode::InvalidFacadeChildDependency => {
            reveal_strlit("invalid-facade-child-dependency");
        },
        FacadeIssueCode::MissingFacadeChildDependencyOptional => {
            reveal_strlit("missing-facade-child-dependency-optional");
        },
        FacadeIssueCode::MissingFacadeFeatures => {
            reveal_strlit("missing-facade-features");
        },
        FacadeIssueCode::InvalidFacadeDefaultFeatures => {
            reveal_strlit("invalid-facade-default-features");
        },
        FacadeIssueCode::MissingFacadeDefaultFeatures => {
            reveal_strlit("missing-facade-default-features");
        },
        FacadeIssueCode::MissingFacadeFullFeature => {
            reveal_strlit("missing-facade-full-feature");
        },
        FacadeIssueCode::MissingFullFeatureMember => {
            reveal_strlit("missing-full-feature-member");
        },
        FacadeIssueCode::MissingFacadeChildFeature => {
            reveal_strlit("missing-facade-child-feature");
        },
        FacadeIssueCode::InvalidFacadeChildFeature => {
            reveal_strlit("invalid-facade-child-feature");
        },
        FacadeIssueCode::InvalidPackageHomepage => {
            reveal_strlit("invalid-package-homepage");
        },
        FacadeIssueCode::InvalidPackageDocumentation => {
            reveal_strlit("invalid-package-documentation");
        },
        FacadeIssueCode::MissingPackageReadmeFile => {
            reveal_strlit("missing-package-readme-file");
        },
        FacadeIssueCode::MissingDocsRsAllFeatures => {
            reveal_strlit("missing-docs-rs-all-features");
        },
        FacadeIssueCode::InvalidDocsRsAllFeatures => {
            reveal_strlit("invalid-docs-rs-all-features");
        },
        FacadeIssueCode::MissingLintsWorkspace => {
            reveal_strlit("missing-lints-workspace");
        },
        FacadeIssueCode::PackageNameDirectoryMismatch => {
            reveal_strlit("package-name-directory-mismatch");
        },
        FacadeIssueCode::InvalidFacadePackageName => {
            reveal_strlit("invalid-facade-package-name");
        },
        FacadeIssueCode::InvalidChildPackageName => {
            reveal_strlit("invalid-child-package-name");
        },
        FacadeIssueCode::MissingCrateLib => {
            reveal_strlit("missing-crate-lib");
        },
        FacadeIssueCode::MissingFacadePrelude => {
            reveal_strlit("missing-facade-prelude");
        },
        FacadeIssueCode::InvalidCategorySlug => {
            reveal_strlit("invalid-category-slug");
        },
        FacadeIssueCode::TooManyCategories => {
            reveal_strlit("too-many-categories");
        },
        FacadeIssueCode::DuplicateCategory => {
            reveal_strlit("duplicate-category");
        },
        FacadeIssueCode::InvalidCategoriesShape => {
            reveal_strlit("invalid-categories-shape");
        },
        FacadeIssueCode::InvalidCategoryValue => {
            reveal_strlit("invalid-category-value");
        },
        FacadeIssueCode::MissingWorkspaceCategories => {
            reveal_strlit("missing-workspace-categories");
        },
        FacadeIssueCode::MissingPackageCategories => {
            reveal_strlit("missing-package-categories");
        },
        FacadeIssueCode::MissingInheritedCategories => {
            reveal_strlit("missing-inherited-categories");
        },
        FacadeIssueCode::NestedFacadePackage => {
            reveal_strlit("nested-facade-package");
        },
        FacadeIssueCode::MissingGitRepository => {
            reveal_strlit("missing-git-repository");
        },
        FacadeIssueCode::MissingRootManifest => {
            reveal_strlit("missing-root-manifest");
        },
        FacadeIssueCode::MissingCratesDirectory => {
            reveal_strlit("missing-crates-directory");
        },
        FacadeIssueCode::MissingChildCrates => {
            reveal_strlit("missing-child-crates");
        },
        FacadeIssueCode::MissingRequiredFile => {
            reveal_strlit("missing-required-file");
        },
        FacadeIssueCode::MissingRequiredDirectory => {
            reveal_strlit("missing-required-directory");
        },
        FacadeIssueCode::NonStandardPath => {
            reveal_strlit("non-standard-path");
        },
        FacadeIssueCode::MissingToolingSurface => {
            reveal_strlit("missing-tooling-surface");
        },
        FacadeIssueCode::MissingGithubCiCdSurface => {
            reveal_strlit("missing-github-ci-cd-surface");
        },
        FacadeIssueCode::MissingReleaseSurface => {
            reveal_strlit("missing-release-surface");
        },
        FacadeIssueCode::MissingReleaseCiSurface => {
            reveal_strlit("missing-release-ci-surface");
        },
        FacadeIssueCode::MissingWorkspaceManifest => {
            reveal_strlit("missing-workspace-manifest");
        },
        FacadeIssueCode::ReadManifest => {
            reveal_strlit("read-manifest");
        },
        FacadeIssueCode::ParseManifest => {
            reveal_strlit("parse-manifest");
        },
        FacadeIssueCode::InvalidManifest => {
            reveal_strlit("invalid-manifest");
        },
        FacadeIssueCode::MissingPackage => {
            reveal_strlit("missing-package");
        },
        FacadeIssueCode::MissingPackageField => {
            reveal_strlit("missing-package-field");
        },
        FacadeIssueCode::InvalidPackageName => {
            reveal_strlit("invalid-package-name");
        },
        FacadeIssueCode::InvalidPackageVersion => {
            reveal_strlit("invalid-package-version");
        },
        FacadeIssueCode::InvalidPackagePublish => {
            reveal_strlit("invalid-package-publish");
        },
        FacadeIssueCode::MissingPackagePublish => {
            reveal_strlit("missing-package-publish");
        },
        FacadeIssueCode::MissingPackageInheritedField => {
            reveal_strlit("missing-package-inherited-field");
        },
        FacadeIssueCode::PackageFieldNotInherited => {
            reveal_strlit("package-field-not-inherited");
        },
    }
}

/// Distinct codes have distinct names.
pub proof fn lemma_code_ids_unique(a: FacadeIssueCode, b: FacadeIssueCode)
    ensures
        code_id(a) == code_id(b) ==> a == b,
{
    lemma_id_rank(a);
    lemma_id_rank(b);
    lemma_code_rank_inverse(a);
    lemma_code_rank_inverse(b);
}

/// Whether a character may appear in a lower-case kebab-case name.
pub open spec fn kebab_char(c: char) -> bool {
    ('a' <= c && c <= 'z') || ('0' <= c && c <= '9') || c == '-'
}

/// Whether a name is lower-case kebab-case: not empty, made of lower-case
/// letters, digits and hyphens, without a hyphen at either end or two in a
/// row.
pub open spec fn is_kebab_case(s: Seq<char>) -> bool {
    &&& s.len() > 0
    &&& s[0] != '-'
    &&& s.last() != '-'
    &&& forall|i: int| 0 <= i < s.len() ==> kebab_char(#[trigger] s[i])
    &&& forall|i: int| 0 <= i < s.len() - 1 ==> !(#[trigger] s[i] == '-' && s[i + 1] == '-')
}

/// Reading the id of a code gives that code back.
pub proof fn lemma_parse_code_round_trip(c: FacadeIssueCode, r: Result<FacadeIssueCode, ParseFacadeIssueCodeError>)
    requires
        code_parse_ok(code_id(c), r),
    ensures
        r == Ok::<FacadeIssueCode, ParseFacadeIssueCodeError>(c),
{
    match r {
        Ok(d) => lemma_code_ids_unique(c, d),
        Err(_) => {},
    }
}

/// A text that reads as a code is lower-case kebab-case.
pub proof fn lemma_parsed_code_is_kebab_case(value: Seq<char>, r: Result<FacadeIssueCode, ParseFacadeIssueCodeError>)
    requires
        code_parse_ok(value, r),
        r is Ok,
    ensures
        is_kebab_case(value),
{
    lemma_code_ids_kebab_case(r->Ok_0);
}

/// Every code's name is lower-case kebab-case.
#[verifier::rlimit(100)]
pub proof fn lemma_code_ids_kebab_case(c: FacadeIssueCode)
    ensures
        is_kebab_case(code_id(c)),
{
    match c {
        FacadeIssueCode::MissingStandardWorkspaceMember => {
            reveal_strlit("missing-standard-workspace-member");
        },
        FacadeIssueCode::NonStandardWorkspaceMembers => {
            reveal_strlit("non-standard-workspace-members");
        },
        FacadeIssueCode::MissingWorkspace => {
            reveal_strlit("missing-workspace");
        },
        FacadeIssueCode::MissingWorkspaceMembers => {
            reveal_strlit("missing-workspace-members");
        },
        FacadeIssueCode::InvalidWorkspaceMembers => {
            reveal_strlit("invalid-workspace-members");
        },
        FacadeIssueCode::MissingWorkspaceResolver => {
            reveal_strlit("missing-workspace-resolver");
        },
        FacadeIssueCode::InvalidWorkspaceResolver => {
            reveal_strlit("invalid-workspace-resolver");
        },
        FacadeIssueCode::MissingWorkspacePackage => {
            reveal_strlit("missing-workspace-package");
        },
        FacadeIssueCode::MissingWorkspacePackageField => {
            reveal_strlit("missing-workspace-package-field");
        },
        FacadeIssueCode::InvalidWorkspaceRepository => {
            reveal_strlit("invalid-workspace-repository");
        },
        FacadeIssueCode::MissingWorkspaceDependencies => {
            reveal_strlit("missing-workspace-dependencies");
        },
        FacadeIssueCode::MissingWorkspaceDependency => {
            reveal_strlit("missing-workspace-dependency");
        },
        FacadeIssueCode::InvalidWorkspaceDependencyShape => {
            reveal_strlit("invalid-workspace-dependency-shape");
        },
        FacadeIssueCode::InvalidWorkspaceDependencyPath => {
            reveal_strlit("invalid-workspace-dependency-path");
        },
        FacadeIssueCode::MissingWorkspaceDependencyPath => {
            reveal_strlit("missing-workspace-dependency-path");
        },
        FacadeIssueCode::MissingWorkspaceDependencyVersion => {
            reveal_strlit("missing-workspace-dependency-version");
        },
        FacadeIssueCode::InvalidWorkspaceDependencyVersion => {
            reveal_strlit("invalid-workspace-dependency-version");
        },
        FacadeIssueCode::MismatchedWorkspaceDependencyVersion => {
            reveal_strlit("mismatched-workspace-dependency-version");
        },
        FacadeIssueCode::OrphanWorkspaceDependencyPath => {
            reveal_strlit("orphan-workspace-dependency-path");
        },
        FacadeIssueCode::MissingWorkspaceUnsafeCodePolicy => {
            reveal_strlit("missing-workspace-unsafe-code-policy");
        },
        FacadeIssueCode::InvalidWorkspaceUnsafeCodePolicy => {
            reveal_strlit("invalid-workspace-unsafe-code-policy");
        },
        FacadeIssueCode::MissingWorkspaceClippyLints => {
            reveal_strlit("missing-workspace-clippy-lints");
        },
        FacadeIssueCode::MissingFacadeDependencies => {
            reveal_strlit("missing-facade-dependencies");
        },
        FacadeIssueCode::MissingFacadeChildDependency => {
            reveal_strlit("missing-facade-child-dependency");
        },
        FacadeIssueCode::InvalidFacadeChildDependency => {
            reveal_strlit("invalid-facade-child-dependency");
        },
        FacadeIssueCode::MissingFacadeChildDependencyOptional => {
            reveal_strlit("missing-facade-child-dependency-optional");
        },
        FacadeIssueCode::MissingFacadeFeatures => {
            reveal_strlit("missing-facade-features");
        },
        FacadeIssueCode::InvalidFacadeDefaultFeatures => {
            reveal_strlit("invalid-facade-default-features");
        },
        FacadeIssueCode::MissingFacadeDefaultFeatures => {
            reveal_strlit("missing-facade-default-features");
        },
        FacadeIssueCode::MissingFacadeFullFeature => {
            reveal_strlit("missing-facade-full-feature");
        },
        FacadeIssueCode::MissingFullFeatureMember => {
            reveal_strlit("missing-full-feature-member");
        },
        FacadeIssueCode::MissingFacadeChildFeature => {
            reveal_strlit("missing-facade-child-feature");
        },
        FacadeIssueCode::InvalidFacadeChildFeature => {
            reveal_strlit("invalid-facade-child-feature");
        },
        FacadeIssueCode::InvalidPackageHomepage => {
            reveal_strlit("invalid-package-homepage");
        },
        FacadeIssueCode::InvalidPackageDocumentation => {
            reveal_strlit("invalid-package-documentation");
        },
        FacadeIssueCode::MissingPackageReadmeFile => {
            reveal_strlit("missing-package-readme-file");
        },
        FacadeIssueCode::MissingDocsRsAllFeatures => {
            reveal_strlit("missing-docs-rs-all-features");
        },
        FacadeIssueCode::InvalidDocsRsAllFeatures => {
            reveal_strlit("invalid-docs-rs-all-features");
        },
        FacadeIssueCode::MissingLintsWorkspace => {
            reveal_strlit("missing-lints-workspace");
        },
        FacadeIssueCode::PackageNameDirectoryMismatch => {
            reveal_strlit("package-name-directory-mismatch");
        },
        FacadeIssueCode::InvalidFacadePackageName => {
            reveal_strlit("invalid-facade-package-name");
        },
        FacadeIssueCode::InvalidChildPackageName => {
            reveal_strlit("invalid-child-package-name");
        },
        FacadeIssueCode::MissingCrateLib => {
            reveal_strlit("missing-crate-lib");
        },
        FacadeIssueCode::MissingFacadePrelude => {
            reveal_strlit("missing-facade-prelude");
        },
        FacadeIssueCode::InvalidCategorySlug => {
            reveal_strlit("invalid-category-slug");
        },
        FacadeIssueCode::TooManyCategories => {
            reveal_strlit("too-many-categories");
        },
        FacadeIssueCode::DuplicateCategory => {
            reveal_strlit("duplicate-category");
        },
        FacadeIssueCode::InvalidCategoriesShape => {
            reveal_strlit("invalid-categories-shape");
        },
        FacadeIssueCode::InvalidCategoryValue => {
            reveal_strlit("invalid-category-value");
        },
        FacadeIssueCode::MissingWorkspaceCategories => {
            reveal_strlit("missing-workspace-categories");
        },
        FacadeIssueCode::MissingPackageCategories => {
            reveal_strlit("missing-package-categories");
        },
        FacadeIssueCode::MissingInheritedCategories => {
            reveal_strlit("missing-inherited-categories");
        },
        FacadeIssueCode::NestedFacadePackage => {
            reveal_strlit("nested-facade-package");
        },
        FacadeIssueCode::MissingGitRepository => {
            reveal_strlit("missing-git-repository");
        },
        FacadeIssueCode::MissingRootManifest => {
            reveal_strlit("missing-root-manifest");
        },
        FacadeIssueCode::MissingCratesDirectory => {
            reveal_strlit("missing-crates-directory");
        },
        FacadeIssueCode::MissingChildCrates => {
            reveal_strlit("missing-child-crates");
        },
        FacadeIssueCode::MissingRequiredFile => {
            reveal_strlit("missing-required-file");
        },
        FacadeIssueCode::MissingRequiredDirectory => {
            reveal_strlit("missing-required-directory");
        },
        FacadeIssueCode::NonStandardPath => {
            reveal_strlit("non-standard-path");
        },
        FacadeIssueCode::MissingToolingSurface => {
            reveal_strlit("missing-tooling-surface");
        },
        FacadeIssueCode::MissingGithubCiCdSurface => {
            reveal_strlit("missing-github-ci-cd-surface");
        },
        FacadeIssueCode::MissingReleaseSurface => {
            reveal_strlit("missing-release-surface");
        },
        FacadeIssueCode::MissingReleaseCiSurface => {
            reveal_strlit("missing-release-ci-surface");
        },
        FacadeIssueCode::MissingWorkspaceManifest => {
            reveal_strlit("missing-workspace-manifest");
        },
        FacadeIssueCode::ReadManifest => {
            reveal_strlit("read-manifest");
        },
        FacadeIssueCode::ParseManifest => {
            reveal_strlit("parse-manifest");
        },
        FacadeIssueCode::InvalidManifest => {
            reveal_strlit("invalid-manifest");
        },
        FacadeIssueCode::MissingPackage => {
            reveal_strlit("missing-package");
        },
        FacadeIssueCode::MissingPackageField => {
            reveal_strlit("missing-package-field");
        },
        FacadeIssueCode::InvalidPackageName => {
            reveal_strlit("invalid-package-name");
        },
        FacadeIssueCode::InvalidPackageVersion => {
            reveal_strlit("invalid-package-version");
        },
        FacadeIssueCode::InvalidPackagePublish => {
            reveal_strlit("invalid-package-publish");
        },
        FacadeIssueCode::MissingPackagePublish => {
            reveal_strlit("missing-package-publish");
        },
        FacadeIssueCode::MissingPackageInheritedField => {
            reveal_strlit("missing-package-inherited-field");
        },
        FacadeIssueCode::PackageFieldNotInherited => {
            reveal_strlit("package-field-not-inherited");
        },
    }
}

/// The length and first letter of each code's name: at least 13
/// characters, and no name of 13, 15, 16 or 22 characters starts with the
/// letter of the repair group name of that length.
#[verifier::rlimit(100)]
pub proof fn lemma_code_id_shape(c: FacadeIssueCode)
    ensures
        code_id(c).len() >= 13,
        code_id(c).len() == 13 ==> code_id(c)[0] != 'f',
        code_id(c).len() == 15 ==> code_id(c)[0] != 'w',
        code_id(c).len() == 16 ==> code_id(c)[0] != 'p',
        code_id(c).len() == 22 ==> code_id(c)[0] != 'w',
{
    match c {
        FacadeIssueCode::MissingStandardWorkspaceMember => {
            reveal_strlit("missing-standard-workspace-member");
        },
        FacadeIssueCode::NonStandardWorkspaceMembers => {
            reveal_strlit("non-standard-workspace-members");
        },
        FacadeIssueCode::MissingWorkspace => {
            reveal_strlit("missing-workspace");
        },
        FacadeIssueCode::MissingWorkspaceMembers => {
            reveal_strlit("missing-workspace-members");
        },
        FacadeIssueCode::InvalidWorkspaceMembers => {
            reveal_strlit("invalid-workspace-members");
        },
        FacadeIssueCode::MissingWorkspaceResolver => {
            reveal_strlit("missing-workspace-resolver");
        },
        FacadeIssueCode::InvalidWorkspaceResolver => {
            reveal_strlit("invalid-workspace-resolver");
        },
        FacadeIssueCode::MissingWorkspacePackage => {
            reveal_strlit("missing-workspace-package");
        },
        FacadeIssueCode::MissingWorkspacePackageField => {
            reveal_strlit("missing-workspace-package-field");
        },
        FacadeIssueCode::InvalidWorkspaceRepository => {
            reveal_strlit("invalid-workspace-repository");
        },
        FacadeIssueCode::MissingWorkspaceDependencies => {
            reveal_strlit("missing-workspace-dependencies");
        },
        FacadeIssueCode::MissingWorkspaceDependency => {
            reveal_strlit("missing-workspace-dependency");
        },
        FacadeIssueCode::InvalidWorkspaceDependencyShape => {
            reveal_strlit("invalid-workspace-dependency-shape");
        },
        FacadeIssueCode::InvalidWorkspaceDependencyPath => {
            reveal_strlit("invalid-workspace-dependency-path");
        },
        FacadeIssueCode::MissingWorkspaceDependencyPath => {
            reveal_strlit("missing-workspace-dependency-path");
        },
        FacadeIssueCode::MissingWorkspaceDependencyVersion => {
            reveal_strlit("missing-workspace-dependency-version");
        },
        FacadeIssueCode::InvalidWorkspaceDependencyVersion => {
            reveal_strlit("invalid-workspace-dependency-version");
        },
        FacadeIssueCode::MismatchedWorkspaceDependencyVersion => {
            reveal_strlit("mismatched-workspace-dependency-version");
        },
        FacadeIssueCode::OrphanWorkspaceDependencyPath => {
            reveal_strlit("orphan-workspace-dependency-path");
        },
        FacadeIssueCode::MissingWorkspaceUnsafeCodePolicy => {
            reveal_strlit("missing-workspace-unsafe-code-policy");
        },
        FacadeIssueCode::InvalidWorkspaceUnsafeCodePolicy => {
            reveal_strlit("invalid-workspace-unsafe-code-policy");
        },
        FacadeIssueCode::MissingWorkspaceClippyLints => {
            reveal_strlit("missing-workspace-clippy-lints");
        },
        FacadeIssueCode::MissingFacadeDependencies => {
            reveal_strlit("missing-facade-dependencies");
        },
        FacadeIssueCode::MissingFacadeChildDependency => {
            reveal_strlit("missing-facade-child-dependency");
        },
        FacadeIssueCode::InvalidFacadeChildDependency => {
            reveal_strlit("invalid-facade-child-dependency");
        },
        FacadeIssueCode::MissingFacadeChildDependencyOptional => {
            reveal_strlit("missing-facade-child-dependency-optional");
        },
        FacadeIssueCode::MissingFacadeFeatures => {
            reveal_strlit("missing-facade-features");
        },
        FacadeIssueCode::InvalidFacadeDefaultFeatures => {
            reveal_strlit("invalid-facade-default-features");
        },
        FacadeIssueCode::MissingFacadeDefaultFeatures => {
            reveal_strlit("missing-facade-default-features");
        },
        FacadeIssueCode::MissingFacadeFullFeature => {
            reveal_strlit("missing-facade-full-feature");
        },
        FacadeIssueCode::MissingFullFeatureMember => {
            reveal_strlit("missing-full-feature-member");
        },
        FacadeIssueCode::MissingFacadeChildFeature => {
            reveal_strlit("missing-facade-child-feature");
        },
        FacadeIssueCode::InvalidFacadeChildFeature => {
            reveal_strlit("invalid-facade-child-feature");
        },
        FacadeIssueCode::InvalidPackageHomepage => {
            reveal_strlit("invalid-package-homepage");
        },
        FacadeIssueCode::InvalidPackageDocumentation => {
            reveal_strlit("invalid-package-documentation");
        },
        FacadeIssueCode::MissingPackageReadmeFile => {
            reveal_strlit("missing-package-readme-file");
        },
        FacadeIssueCode::MissingDocsRsAllFeatures => {
            reveal_strlit("missing-docs-rs-all-features");
        },
        FacadeIssueCode::InvalidDocsRsAllFeatures => {
            reveal_strlit("invalid-docs-rs-all-features");
        },
        FacadeIssueCode::MissingLintsWorkspace => {
            reveal_strlit("missing-lints-workspace");
        },
        FacadeIssueCode::PackageNameDirectoryMismatch => {
            reveal_strlit("package-name-directory-mismatch");
        },
        FacadeIssueCode::InvalidFacadePackageName => {
            reveal_strlit("invalid-facade-package-name");
        },
        FacadeIssueCode::InvalidChildPackageName => {
            reveal_strlit("invalid-child-package-name");
        },
        FacadeIssueCode::MissingCrateLib => {
            reveal_strlit("missing-crate-lib");
        },
        FacadeIssueCode::MissingFacadePrelude => {
            reveal_strlit("missing-facade-prelude");
        },
        FacadeIssueCode::InvalidCategorySlug => {
            reveal_strlit("invalid-category-slug");
        },
        FacadeIssueCode::TooManyCategories => {
            reveal_strlit("too-many-categories");
        },
        FacadeIssueCode::DuplicateCategory => {
            reveal_strlit("duplicate-category");
        },
        FacadeIssueCode::InvalidCategoriesShape => {
            reveal_strlit("invalid-categories-shape");
        },
        FacadeIssueCode::InvalidCategoryValue => {
            reveal_strlit("invalid-category-value");
        },
        FacadeIssueCode::MissingWorkspaceCategories => {
            reveal_strlit("missing-workspace-categories");
        },
        FacadeIssueCode::MissingPackageCategories => {
            reveal_strlit("missing-package-categories");
        },
        FacadeIssueCode::MissingInheritedCategories => {
            reveal_strlit("missing-inherited-categories");
        },
        FacadeIssueCode::NestedFacadePackage => {
            reveal_strlit("nested-facade-package");
        },
        FacadeIssueCode::MissingGitRepository => {
            reveal_strlit("missing-git-repository");
        },
        FacadeIssueCode::MissingRootManifest => {
            reveal_strlit("missing-root-manifest");
        },
        FacadeIssueCode::MissingCratesDirectory => {
            reveal_strlit("missing-crates-directory");
        },
        FacadeIssueCode::MissingChildCrates => {
            reveal_strlit("missing-child-crates");
        },
        FacadeIssueCode::MissingRequiredFile => {
            reveal_strlit("missing-required-file");
        },
        FacadeIssueCode::MissingRequiredDirectory => {
            reveal_strlit("missing-required-directory");
        },
        FacadeIssueCode::NonStandardPath => {
            reveal_strlit("non-standard-path");
        },
        FacadeIssueCode::MissingToolingSurface => {
            reveal_strlit("missing-tooling-surface");
        },
        FacadeIssueCode::MissingGithubCiCdSurface => {
            reveal_strlit("missing-github-ci-cd-surface");
        },
        FacadeIssueCode::MissingReleaseSurface => {
            reveal_strlit("missing-release-surface");
        },
        FacadeIssueCode::MissingReleaseCiSurface => {
            reveal_strlit("missing-release-ci-surface");
        },
        FacadeIssueCode::MissingWorkspaceManifest => {
            reveal_strlit("missing-workspace-manifest");
        },
        FacadeIssueCode::ReadManifest => {
            reveal_strlit("read-manifest");
        },
        FacadeIssueCode::ParseManifest => {
            reveal_strlit("parse-manifest");
        },
        FacadeIssueCode::InvalidManifest => {
            reveal_strlit("invalid-manifest");
        },
        FacadeIssueCode::MissingPackage => {
            reveal_strlit("missing-package");
        },
        FacadeIssueCode::MissingPackageField => {
            reveal_strlit("missing-package-field");
        },
        FacadeIssueCode::InvalidPackageName => {
            reveal_strlit("invalid-package-name");
        },
        FacadeIssueCode::InvalidPackageVersion => {
            reveal_strlit("invalid-package-version");
        },
        FacadeIssueCode::InvalidPackagePublish => {
            reveal_strlit("invalid-package-publish");
        },
        FacadeIssueCode::MissingPackagePublish => {
            reveal_strlit("missing-package-publish");
        },
        FacadeIssueCode::MissingPackageInheritedField => {
            reveal_strlit("missing-package-inherited-field");
        },
        FacadeIssueCode::PackageFieldNotInherited => {
            reveal_strlit("package-field-not-inherited");
        },
    }
}



proof fn lemma_group_texts()
    ensures
        "facade-wiring"@.len() == 13,
        "facade-wiring"@[0] == 'f',
        "workspace-shape"@.len() == 15,
        "workspace-shape"@[0] == 'w',
        "workspace-resolver"@.len() == 18,
        "workspace-dependencies"@.len() == 22,
        "workspace-dependencies"@[0] == 'w',
        "invalid-workspace-dependency"@.len() == 28,
        "invalid-workspace-dependency"@[0] == 'i',
        "invalid-workspace-dependency"@[8] == 'w',
        "all"@.len() == 3,
{
    reveal_strlit("facade-wiring");
    reveal_strlit("workspace-shape");
    reveal_strlit("workspace-resolver");
    reveal_strlit("workspace-dependencies");
    reveal_strlit("invalid-workspace-dependency");
    reveal_strlit("all");
}

/// The id of a package-shape code is none of the repair group names nor
/// another text that selects a repair.
#[verifier::rlimit(100)]
#[verifier::spinoff_prover]
pub proof fn lemma_package_shape_id_not_group_text(c: FacadeIssueCode)
    requires
        code_bucket(c) == FacadeIssueBucket::PackageShape,
    ensures
        code_id(c) != "facade-wiring"@,
        code_id(c) != "workspace-shape"@,
        code_id(c) != "workspace-resolver"@,
        code_id(c) != "workspace-dependencies"@,
        code_id(c) != "invalid-workspace-dependency"@,
        code_id(c) != "all"@,
{
    lemma_group_texts();
    match c {
        FacadeIssueCode::InvalidPackageHomepage => {
            reveal_strlit("invalid-package-homepage");
        },
        FacadeIssueCode::InvalidPackageDocumentation => {
            reveal_strlit("invalid-package-documentation");
        },
        FacadeIssueCode::MissingPackageReadmeFile => {
            reveal_strlit("missing-package-readme-file");
        },
        FacadeIssueCode::MissingDocsRsAllFeatures => {
            reveal_strlit("missing-docs-rs-all-features");
            lemma_differ_at("missing-docs-rs-all-features"@, "invalid-workspace-dependency"@, 0);
        },
        FacadeIssueCode::InvalidDocsRsAllFeatures => {
            reveal_strlit("invalid-docs-rs-all-features");
            lemma_differ_at("invalid-docs-rs-all-features"@, "invalid-workspace-dependency"@, 8);
        },
        FacadeIssueCode::MissingLintsWorkspace => {
            reveal_strlit("missing-lints-workspace");
        },
        FacadeIssueCode::PackageNameDirectoryMismatch => {
            reveal_strlit("package-name-directory-mismatch");
        },
        FacadeIssueCode::InvalidFacadePackageName => {
            reveal_strlit("invalid-facade-package-name");
        },
        FacadeIssueCode::InvalidChildPackageName => {
            reveal_strlit("invalid-child-package-name");
        },
        FacadeIssueCode::MissingCrateLib => {
            reveal_strlit("missing-crate-lib");
        },
        FacadeIssueCode::MissingFacadePrelude => {
            reveal_strlit("missing-facade-prelude");
            lemma_differ_at("missing-facade-prelude"@, "workspace-dependencies"@, 0);
        },
        FacadeIssueCode::ReadManifest => {
            reveal_strlit("read-manifest");
            lemma_differ_at("read-manifest"@, "facade-wiring"@, 0);
        },
        FacadeIssueCode::ParseManifest => {
            reveal_strlit("parse-manifest");
        },
        FacadeIssueCode::InvalidManifest => {
            reveal_strlit("invalid-manifest");
        },
        FacadeIssueCode::MissingPackage => {
            reveal_strlit("missing-package");
            lemma_differ_at("missing-package"@, "workspace-shape"@, 0);
        },
        FacadeIssueCode::MissingPackageField => {
            reveal_strlit("missing-package-field");
        },
        FacadeIssueCode::InvalidPackageName => {
            reveal_strlit("invalid-package-name");
        },
        FacadeIssueCode::InvalidPackageVersion => {
            reveal_strlit("invalid-package-version");
        },
        FacadeIssueCode::InvalidPackagePublish => {
            reveal_strlit("invalid-package-publish");
        },
        FacadeIssueCode::MissingPackagePublish => {
            reveal_strlit("missing-package-publish");
        },
        FacadeIssueCode::MissingPackageInheritedField => {
            reveal_strlit("missing-package-inherited-field");
        },
        FacadeIssueCode::PackageFieldNotInherited => {
            reveal_strlit("package-field-not-inherited");
        },
        _ => {},
    }
}

} // verus!
