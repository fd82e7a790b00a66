//! The WebDAV view of the archive: addresses, resources, resolution and the
//! protocol's verbs.

pub mod archive;
pub mod document;
pub mod engine;
pub mod error;
pub mod handler;
pub mod ids;
pub mod laws;
pub mod path;
pub mod query;
pub mod response;
pub mod time;
pub mod types;
pub mod util;
pub mod words;
pub mod xml;

pub use archive::{Dandiset, DandisetVersion};
pub use error::{BackendError, DavError};
pub use handler::{DandiDav, GetAction, Handling};
pub use ids::{DandisetId, ParseDandisetIdError, ParsePublishedVersionIdError, PublishedVersionId};
pub use path::{split_uri_path, version_path, DavPath, VersionId, VersionSpec};
pub use response::{Body, Response};
pub use time::Timestamp;
pub use types::{
    DavCollection, DavContent, DavItem, DavResource, DavResourceWithChildren, Redirect,
    ResourceKind,
};
pub use util::{DepthError, FiniteDepth};
pub use xml::{DavResponse, Multistatus, PropFind, PropValue, Property};
