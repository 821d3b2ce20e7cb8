//! What the release catalog answers: releases, their binaries and packages.
use crate::types::{
    AdoptiumJvmImpl, Architecture, HeapSize, ImageType, OS, Project, ReleaseType, Vendor,
};
use crate::version::VersionData;
use vstd::prelude::*;

verus! {

/// A downloadable archive.
pub struct Package {
    pub checksum: String,
    pub checksum_link: Option<String>,
    pub download_count: i64,
    pub link: String,
    pub metadata_link: String,
    pub name: String,
    pub size: i64,
}

/// The source archive of a release.
pub struct Source {
    pub link: String,
    pub name: String,
    pub size: i64,
}

/// One release, with one or more binaries.
pub struct ReleaseInformationDatum {
    pub binaries: Vec<Binary>,
    pub download_count: i64,
    pub id: String,
    pub release_link: String,
    pub release_name: String,
    pub release_type: ReleaseType,
    pub source: Option<Source>,
    pub timestamp: String,
    pub updated_at: String,
    pub vendor: Vendor,
    pub version_data: VersionData,
}

/// One binary of a release, for one system and image type.
pub struct Binary {
    pub architecture: Architecture,
    pub download_count: i64,
    pub heap_size: HeapSize,
    pub image_type: ImageType,
    pub jvm_impl: AdoptiumJvmImpl,
    pub os: OS,
    pub package: Package,
    pub project: Project,
    pub scm_ref: String,
    pub updated_at: String,
    pub installer: Option<Package>,
}

} // verus!
