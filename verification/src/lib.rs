//! The core of a read-only WebDAV gateway onto a scientific data archive:
//! normalized path types, the route grammar that maps URL paths onto
//! addressable resources, the resource model, and the decision logic of
//! resource resolution and of the WebDAV verbs.
//!
//! Nothing in this crate performs I/O.  A driver performs the backend calls
//! that the resolution engine asks for and hands the answers back.

pub mod dav;
pub mod paths;
