//! What can go wrong while a request is served.

use crate::dav::ids::DandisetId;
use vstd::prelude::*;
use vstd::string::*;

verus! {

/// A failure reported by a backend.
#[derive(Debug)]
pub struct BackendError {
    /// Whether the backend failed because what was asked for does not exist.
    pub not_found: bool,
    /// The failure and its causes, written out.
    pub detail: String,
}

/// A [`BackendError`] as plain values.
pub struct BackendErrorView {
    pub not_found: bool,
    pub detail: Seq<char>,
}

impl View for BackendError {
    type V = BackendErrorView;

    open spec fn view(&self) -> BackendErrorView {
        BackendErrorView { not_found: self.not_found, detail: self.detail@ }
    }
}

impl BackendError {
    /// Was the failure caused by something not being found?
    pub fn is_404(&self) -> (b: bool)
        ensures
            b == self@.not_found,
    {
        self.not_found
    }
}

/// Why a request could not be served.
#[derive(Debug)]
pub enum DavError {
    /// The archive failed to answer.
    Dandi(BackendError),
    /// The store of Zarr manifests failed to answer.
    ZarrMan(BackendError),
    /// The latest version of a Dandiset was asked for, and the Dandiset has
    /// never been published.
    NoLatestVersion { dandiset_id: DandisetId },
    /// A page could not be rendered; the text says why.
    Template(String),
    /// A multistatus document could not be written; the text says why.
    Xml(String),
}

/// A [`DavError`] as plain values.
pub enum DavErrorView {
    Dandi(BackendErrorView),
    ZarrMan(BackendErrorView),
    NoLatestVersion { dandiset_id: Seq<char> },
    Template(Seq<char>),
    Xml(Seq<char>),
}

impl View for DavError {
    type V = DavErrorView;

    open spec fn view(&self) -> DavErrorView {
        match self {
            DavError::Dandi(e) => DavErrorView::Dandi(e@),
            DavError::ZarrMan(e) => DavErrorView::ZarrMan(e@),
            DavError::NoLatestVersion { dandiset_id } => DavErrorView::NoLatestVersion {
                dandiset_id: dandiset_id@,
            },
            DavError::Template(msg) => DavErrorView::Template(msg@),
            DavError::Xml(msg) => DavErrorView::Xml(msg@),
        }
    }
}

/// Whether an error means that what was asked for does not exist: a backend
/// failure that says so, or a missing latest version.  Failures to render or
/// to write are never of this sort.
pub open spec fn is_not_found(e: DavErrorView) -> bool {
    match e {
        DavErrorView::Dandi(e) => e.not_found,
        DavErrorView::ZarrMan(e) => e.not_found,
        DavErrorView::NoLatestVersion { .. } => true,
        DavErrorView::Template(_) => false,
        DavErrorView::Xml(_) => false,
    }
}

impl DavError {
    /// Was the error ultimately caused by something not being found?
    pub fn is_404(&self) -> (b: bool)
        ensures
            b == is_not_found(self@),
    {
        match self {
            DavError::Dandi(e) => e.is_404(),
            DavError::ZarrMan(e) => e.is_404(),
            DavError::NoLatestVersion { .. } => true,
            _ => false,
        }
    }
}

/// What an error is reported as in the body of a response.
pub open spec fn error_report(e: DavErrorView) -> Seq<char> {
    match e {
        DavErrorView::Dandi(e) => "failed to fetch data from Archive: "@ + e.detail,
        DavErrorView::ZarrMan(e) => "failed to fetch data from Zarr manifests: "@ + e.detail,
        DavErrorView::NoLatestVersion { dandiset_id } =>
            "latest version was requested for Dandiset "@ + dandiset_id
            + ", but it has not been published"@,
        DavErrorView::Template(msg) => msg,
        DavErrorView::Xml(msg) => msg,
    }
}

impl DavError {
    /// The error written out for the body of a response.
    pub fn report(&self) -> (s: String)
        ensures
            s@ == error_report(self@),
    {
        match self {
            DavError::Dandi(e) => {
                let mut s = "failed to fetch data from Archive: ".to_owned();
                s.append(e.detail.as_str());
                s
            },
            DavError::ZarrMan(e) => {
                let mut s = "failed to fetch data from Zarr manifests: ".to_owned();
                s.append(e.detail.as_str());
                s
            },
            DavError::NoLatestVersion { dandiset_id } => {
                let mut s = "latest version was requested for Dandiset ".to_owned();
                s.append(dandiset_id.as_str());
                s.append(", but it has not been published");
                s
            },
            DavError::Template(msg) => msg.clone(),
            DavError::Xml(msg) => msg.clone(),
        }
    }
}

} // verus!
