//! Value records returned to callers.
//!
//! Every record is immutable and built per request from a successfully
//! parsed upstream reply; nothing here persists across requests.

use vstd::prelude::*;

verus! {

/// One entry of a package's feature table: a feature name and the
/// features it activates.
pub struct FeatureEntry {
    pub name: String,
    pub enables: Vec<String>,
}

/// Comprehensive information about one package.
pub struct CrateInfo {
    pub name: String,
    pub version: String,
    pub description: Option<String>,
    pub documentation: Option<String>,
    pub homepage: Option<String>,
    pub repository: Option<String>,
    pub license: Option<String>,
    pub authors: Vec<String>,
    pub keywords: Vec<String>,
    pub categories: Vec<String>,
    pub downloads: u64,
    pub created_at: String,
    pub updated_at: String,
}

/// One search hit from the registry.
pub struct CrateSearchResult {
    pub name: String,
    pub max_version: String,
    pub description: Option<String>,
    pub downloads: u64,
}

/// Information about one published version of a package.
pub struct CrateVersion {
    pub num: String,
    pub created_at: String,
    pub downloads: u64,
    pub features: Vec<FeatureEntry>,
    pub yanked: bool,
}

/// One dependency edge of a package version.
pub struct CrateDependency {
    pub name: String,
    pub version_req: String,
    pub optional: bool,
    pub default_features: bool,
    pub features: Vec<String>,
    pub target: Option<String>,
    pub kind: String,
}

/// Documentation content for a package version, gathered best-effort.
pub struct CrateDocumentation {
    pub name: String,
    pub version: String,
    pub description: Option<String>,
    pub readme: Option<String>,
    pub modules: Vec<String>,
    pub items: Vec<DocumentationItem>,
}

/// One named item found in the rendered documentation.
pub struct DocumentationItem {
    pub name: String,
    pub kind: String,
    pub path: String,
    pub description: Option<String>,
}

} // verus!
