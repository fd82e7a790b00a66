//! What the archive tells about Dandisets and their versions.

use crate::dav::ids::DandisetId;
use crate::dav::path::{VersionId, VersionIdView};
use crate::dav::time::Timestamp;
use vstd::prelude::*;

verus! {

/// A version of a Dandiset, as the archive describes it.
#[derive(Debug)]
pub struct DandisetVersion {
    pub version: VersionId,
    /// The size of the version's files in bytes.
    pub size: i64,
    /// When the version was created.
    pub created: Timestamp,
    /// When the version was last modified.
    pub modified: Timestamp,
    /// Where the version's metadata can be had.
    pub metadata_url: String,
}

/// A [`DandisetVersion`] as plain values.
pub struct DandisetVersionView {
    pub version: VersionIdView,
    pub size: i64,
    pub created: Timestamp,
    pub modified: Timestamp,
    pub metadata_url: Seq<char>,
}

impl View for DandisetVersion {
    type V = DandisetVersionView;

    open spec fn view(&self) -> DandisetVersionView {
        DandisetVersionView {
            version: self.version@,
            size: self.size,
            created: self.created,
            modified: self.modified,
            metadata_url: self.metadata_url@,
        }
    }
}

/// A Dandiset, as the archive describes it.
#[derive(Debug)]
pub struct Dandiset {
    pub identifier: DandisetId,
    /// When the Dandiset was created.
    pub created: Timestamp,
    /// When the Dandiset was last modified.
    pub modified: Timestamp,
    pub draft_version: DandisetVersion,
    /// The version published last, where the Dandiset has been published.
    pub most_recent_published_version: Option<DandisetVersion>,
}

/// A [`Dandiset`] as plain values.
pub struct DandisetView {
    pub identifier: Seq<char>,
    pub created: Timestamp,
    pub modified: Timestamp,
    pub draft_version: DandisetVersionView,
    pub most_recent_published_version: Option<DandisetVersionView>,
}

impl View for Dandiset {
    type V = DandisetView;

    open spec fn view(&self) -> DandisetView {
        DandisetView {
            identifier: self.identifier@,
            created: self.created,
            modified: self.modified,
            draft_version: self.draft_version@,
            most_recent_published_version: match self.most_recent_published_version {
                Some(v) => Some(v@),
                None => None,
            },
        }
    }
}

/// The views of a list of Dandisets.
pub open spec fn dandiset_views(ds: Seq<Dandiset>) -> Seq<DandisetView> {
    ds.map_values(|d: Dandiset| d@)
}

/// The views of a list of versions.
pub open spec fn version_views(vs: Seq<DandisetVersion>) -> Seq<DandisetVersionView> {
    vs.map_values(|v: DandisetVersion| v@)
}

} // verus!
