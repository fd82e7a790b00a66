//! Normalized, forward-slash-separated path types.

pub mod component;
pub mod dirpath;
pub mod laws;
pub mod purepath;
pub mod segments;
pub mod text;

pub use component::{Component, ParseComponentError};
pub use dirpath::{ParsePureDirPathError, PureDirPath};
pub use purepath::{ParsePurePathError, PurePath};
