//! A plain-value model of what the pipeline reads from the project's
//! build descriptor: the root package's standard fields and the
//! vendor-specific metadata table. A front end fills it from the real
//! descriptor; the library's logic only ever sees these values.

use vstd::prelude::*;

verus! {

/// The optional `android` sub-table of the package metadata. Absent keys
/// fall back to documented defaults when the manifest is derived.
pub struct AndroidMetadata {
    pub package: Option<String>,
    pub version_code: Option<u32>,
    pub version_name: Option<String>,
    pub min_sdk_version: Option<u32>,
    pub target_sdk_version: Option<u32>,
    pub label: Option<String>,
}

/// What the pipeline reads from the root package of the build descriptor.
pub struct PackageMeta {
    /// The package's name.
    pub name: String,
    /// The package's version.
    pub version: String,
    /// The `icon_path` metadata key, when present.
    pub icon_path: Option<String>,
    /// Whether an `embed-resource` build dependency is declared.
    pub embed_resources_ok: bool,
    /// The `android` metadata sub-table, with every key optional.
    pub android: AndroidMetadata,
}

/// The project metadata as a whole: a workspace may have no root package.
pub struct ProjectMetadata {
    pub root: Option<PackageMeta>,
}

} // verus!
