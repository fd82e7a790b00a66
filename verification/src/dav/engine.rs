//! Resource resolution: which backend calls an address needs, and what
//! resource their answers make.
//!
//! The engine performs no call itself.  Given an address and the answers
//! received so far, it says which call to make next or what the outcome is.
//! A driver makes the call, appends the answer and asks again.

use crate::dav::archive::{
    dandiset_views, version_views, Dandiset, DandisetVersion, DandisetVersionView, DandisetView,
};
use crate::dav::error::{BackendError, BackendErrorView, DavError, DavErrorView};
use crate::dav::ids::DandisetId;
use crate::dav::path::{
    version_path, version_path_text, DavPath, DavPathView, VersionId, VersionIdView, VersionSpec,
    VersionSpecView,
};
use crate::dav::types::{
    all_under_path, dandiset_collection, dandiset_index_collection, dandiset_yaml_item, rebase,
    rebase_all, rebase_item, rebase_with_children, releases_collection, resource_views,
    root_collection, root_with_children, version_collection, zarr_index_collection,
    DavCollection, DavCollectionView, DavItem, DavResource, DavResourceView,
    DavResourceWithChildren, DavResourceWithChildrenView,
};
use crate::paths::purepath::PurePath;
use vstd::prelude::*;

verus! {

/// A call to a backend that the engine needs made.
#[derive(Debug)]
pub enum BackendCall {
    /// Ask the archive for a Dandiset.
    GetDandiset { dandiset_id: DandisetId },
    /// Ask the archive for all Dandisets, in its order.
    GetAllDandisets,
    /// Ask the archive for all versions of a Dandiset, in its order.
    GetAllVersions { dandiset_id: DandisetId },
    /// Ask the archive for a version of a Dandiset.
    GetVersion { dandiset_id: DandisetId, version: VersionId },
    /// Ask the archive for the metadata of a version.
    GetVersionMetadata { dandiset_id: DandisetId, version: VersionId },
    /// Ask the archive for the resources at the top of a version, in its
    /// order, addressed from the top of the version.
    GetRootChildren { dandiset_id: DandisetId, version: VersionId },
    /// Ask the archive for the resource at `path` in a version, addressed
    /// from the top of the version.
    GetResource { dandiset_id: DandisetId, version: VersionId, path: PurePath },
    /// Ask the archive for the resource at `path` in a version and for its
    /// children, addressed from the top of the version.
    GetResourceWithChildren { dandiset_id: DandisetId, version: VersionId, path: PurePath },
    /// Ask the manifest store for the resource at `path`.
    GetZarrResource { path: PurePath },
    /// Ask the manifest store for the resource at `path` and for its children.
    GetZarrResourceWithChildren { path: PurePath },
    /// Ask the manifest store for its top-level directories.
    GetZarrTopLevelDirs,
}

/// A [`BackendCall`] as plain values.
pub enum BackendCallView {
    GetDandiset { dandiset_id: Seq<char> },
    GetAllDandisets,
    GetAllVersions { dandiset_id: Seq<char> },
    GetVersion { dandiset_id: Seq<char>, version: VersionIdView },
    GetVersionMetadata { dandiset_id: Seq<char>, version: VersionIdView },
    GetRootChildren { dandiset_id: Seq<char>, version: VersionIdView },
    GetResource { dandiset_id: Seq<char>, version: VersionIdView, path: Seq<char> },
    GetResourceWithChildren { dandiset_id: Seq<char>, version: VersionIdView, path: Seq<char> },
    GetZarrResource { path: Seq<char> },
    GetZarrResourceWithChildren { path: Seq<char> },
    GetZarrTopLevelDirs,
}

impl View for BackendCall {
    type V = BackendCallView;

    open spec fn view(&self) -> BackendCallView {
        match self {
            BackendCall::GetDandiset { dandiset_id } => BackendCallView::GetDandiset {
                dandiset_id: dandiset_id@,
            },
            BackendCall::GetAllDandisets => BackendCallView::GetAllDandisets,
            BackendCall::GetAllVersions { dandiset_id } => BackendCallView::GetAllVersions {
                dandiset_id: dandiset_id@,
            },
            BackendCall::GetVersion { dandiset_id, version } => BackendCallView::GetVersion {
                dandiset_id: dandiset_id@,
                version: version@,
            },
            BackendCall::GetVersionMetadata { dandiset_id, version } => {
                BackendCallView::GetVersionMetadata { dandiset_id: dandiset_id@, version: version@ }
            },
            BackendCall::GetRootChildren { dandiset_id, version } => {
                BackendCallView::GetRootChildren { dandiset_id: dandiset_id@, version: version@ }
            },
            BackendCall::GetResource { dandiset_id, version, path } => {
                BackendCallView::GetResource {
                    dandiset_id: dandiset_id@,
                    version: version@,
                    path: path@,
                }
            },
            BackendCall::GetResourceWithChildren { dandiset_id, version, path } => {
                BackendCallView::GetResourceWithChildren {
                    dandiset_id: dandiset_id@,
                    version: version@,
                    path: path@,
                }
            },
            BackendCall::GetZarrResource { path } => BackendCallView::GetZarrResource {
                path: path@,
            },
            BackendCall::GetZarrResourceWithChildren { path } => {
                BackendCallView::GetZarrResourceWithChildren { path: path@ }
            },
            BackendCall::GetZarrTopLevelDirs => BackendCallView::GetZarrTopLevelDirs,
        }
    }
}

/// The answer of a backend to a call.
#[derive(Debug)]
pub enum BackendReply {
    Dandiset(Dandiset),
    Dandisets(Vec<Dandiset>),
    Versions(Vec<DandisetVersion>),
    Version(DandisetVersion),
    Metadata(Vec<u8>),
    Resources(Vec<DavResource>),
    Resource(DavResource),
    ResourceWithChildren(DavResourceWithChildren),
    /// The call failed.
    Failed(BackendError),
}

/// A [`BackendReply`] as plain values.
pub enum BackendReplyView {
    Dandiset(DandisetView),
    Dandisets(Seq<DandisetView>),
    Versions(Seq<DandisetVersionView>),
    Version(DandisetVersionView),
    Metadata(Seq<u8>),
    Resources(Seq<DavResourceView>),
    Resource(DavResourceView),
    ResourceWithChildren(DavResourceWithChildrenView),
    Failed(BackendErrorView),
}

impl View for BackendReply {
    type V = BackendReplyView;

    open spec fn view(&self) -> BackendReplyView {
        match self {
            BackendReply::Dandiset(ds) => BackendReplyView::Dandiset(ds@),
            BackendReply::Dandisets(list) => BackendReplyView::Dandisets(dandiset_views(list@)),
            BackendReply::Versions(list) => BackendReplyView::Versions(version_views(list@)),
            BackendReply::Version(v) => BackendReplyView::Version(v@),
            BackendReply::Metadata(bytes) => BackendReplyView::Metadata(bytes@),
            BackendReply::Resources(list) => BackendReplyView::Resources(resource_views(list@)),
            BackendReply::Resource(r) => BackendReplyView::Resource(r@),
            BackendReply::ResourceWithChildren(r) => BackendReplyView::ResourceWithChildren(r@),
            BackendReply::Failed(e) => BackendReplyView::Failed(e@),
        }
    }
}

/// The views of a list of replies.
pub open spec fn reply_views(replies: Seq<BackendReply>) -> Seq<BackendReplyView> {
    replies.map_values(|r: BackendReply| r@)
}

/// What the engine says after looking at the answers so far.
#[derive(Debug)]
pub enum Step<T> {
    /// Make this call, append its answer to the answers, and ask again.
    Call(BackendCall),
    /// Resolution has ended, with this outcome.
    Done(Result<T, DavError>),
}

/// A [`Step`] as plain values.
pub enum StepView<T> {
    Call(BackendCallView),
    Done(Result<T, DavErrorView>),
}

/// The failure that stands for an answer of the wrong sort.
pub open spec fn unexpected_reply() -> BackendErrorView {
    BackendErrorView { not_found: false, detail: "unexpected reply from the backend"@ }
}

/// The error for an answer of the archive that is not what was asked for:
/// the failure that the archive reported, or else an internal failure.
pub open spec fn archive_failure(reply: BackendReplyView) -> DavErrorView {
    match reply {
        BackendReplyView::Failed(e) => DavErrorView::Dandi(e),
        _ => DavErrorView::Dandi(unexpected_reply()),
    }
}

/// The error for an answer of the manifest store that is not what was asked
/// for: the failure that the store reported, or else an internal failure.
pub open spec fn manifest_failure(reply: BackendReplyView) -> DavErrorView {
    match reply {
        BackendReplyView::Failed(e) => DavErrorView::ZarrMan(e),
        _ => DavErrorView::ZarrMan(unexpected_reply()),
    }
}

/// How far the resolution of a version selector has come.
pub enum EndpointView {
    /// A call is needed first.
    Call(BackendCallView),
    /// The selector cannot be resolved.
    Failed(DavErrorView),
    /// The selector stands for `endpoint`, and finding that out took the
    /// first `used` answers.
    Found { endpoint: VersionIdView, used: nat },
}

/// The concrete version that a version selector stands for.  The draft and a
/// published version stand for themselves.  The latest version is the one
/// that the Dandiset names as published most recently; a Dandiset that names
/// none has no latest version.
pub open spec fn version_endpoint(
    dandiset_id: Seq<char>,
    version: VersionSpecView,
    replies: Seq<BackendReplyView>,
) -> EndpointView {
    match version {
        VersionSpecView::Draft => EndpointView::Found { endpoint: VersionIdView::Draft, used: 0 },
        VersionSpecView::Published(v) => EndpointView::Found {
            endpoint: VersionIdView::Published(v),
            used: 0,
        },
        VersionSpecView::Latest => if replies.len() == 0 {
            EndpointView::Call(BackendCallView::GetDandiset { dandiset_id })
        } else {
            match replies[0] {
                BackendReplyView::Dandiset(ds) => match ds.most_recent_published_version {
                    Some(v) => EndpointView::Found { endpoint: v.version, used: 1 },
                    None => EndpointView::Failed(DavErrorView::NoLatestVersion { dandiset_id }),
                },
                other => EndpointView::Failed(archive_failure(other)),
            }
        },
    }
}

impl Clone for BackendError {
    fn clone(&self) -> (e: Self)
        ensures
            e == *self,
    {
        BackendError { not_found: self.not_found, detail: self.detail.clone() }
    }
}

/// The error for the answer `reply` of the archive, which is not what was
/// asked for.
pub fn archive_error(reply: &BackendReply) -> (e: DavError)
    ensures
        e@ == archive_failure(reply@),
{
    match reply {
        BackendReply::Failed(e) => DavError::Dandi(e.clone()),
        _ => DavError::Dandi(
            BackendError {
                not_found: false,
                detail: "unexpected reply from the backend".to_owned(),
            },
        ),
    }
}

/// The error for the answer `reply` of the manifest store, which is not what
/// was asked for.
pub fn manifest_error(reply: &BackendReply) -> (e: DavError)
    ensures
        e@ == manifest_failure(reply@),
{
    match reply {
        BackendReply::Failed(e) => DavError::ZarrMan(e.clone()),
        _ => DavError::ZarrMan(
            BackendError {
                not_found: false,
                detail: "unexpected reply from the backend".to_owned(),
            },
        ),
    }
}

/// A handler for the resources of one version of one Dandiset.
///
/// What its methods return is addressed under the path of the Dandiset and
/// of the version as it was asked for.
#[derive(Debug)]
pub struct VersionHandler<'a> {
    pub dandiset_id: &'a DandisetId,
    pub version_spec: &'a VersionSpec,
    /// The concrete version that `version_spec` stands for.
    pub endpoint: VersionId,
}

/// How far the resolution of a version selector has come.
#[derive(Debug)]
pub enum Endpoint<'a> {
    /// A call is needed first.
    Call(BackendCall),
    /// The selector cannot be resolved.
    Failed(DavError),
    /// The handler for the version, and the number of answers that it took
    /// to find it.
    Found(VersionHandler<'a>, usize),
}

/// Obtains a handler for the version `version_spec` of the Dandiset
/// `dandiset_id`.  For the latest version the Dandiset itself is looked up:
/// its answer is the first of `replies`.
pub fn get_version_handler<'a>(
    dandiset_id: &'a DandisetId,
    version_spec: &'a VersionSpec,
    replies: &Vec<BackendReply>,
) -> (r: Endpoint<'a>)
    ensures
        match r {
            Endpoint::Call(c) => version_endpoint(
                dandiset_id@,
                version_spec@,
                reply_views(replies@),
            ) == EndpointView::Call(c@),
            Endpoint::Failed(e) => version_endpoint(
                dandiset_id@,
                version_spec@,
                reply_views(replies@),
            ) == EndpointView::Failed(e@),
            Endpoint::Found(handler, used) => {
                &&& version_endpoint(dandiset_id@, version_spec@, reply_views(replies@))
                    == (EndpointView::Found { endpoint: handler.endpoint@, used: used as nat })
                &&& handler.dandiset_id == dandiset_id
                &&& handler.version_spec == version_spec
                &&& used <= 1
                &&& used <= replies@.len()
            },
        },
{
    let endpoint = match version_spec {
        VersionSpec::Draft => VersionId::Draft,
        VersionSpec::Published(v) => VersionId::Published(v.clone()),
        VersionSpec::Latest => {
            if replies.len() == 0 {
                return Endpoint::Call(
                    BackendCall::GetDandiset { dandiset_id: dandiset_id.clone() },
                );
            }
            match &replies[0] {
                BackendReply::Dandiset(ds) => match &ds.most_recent_published_version {
                    Some(v) => {
                        return Endpoint::Found(
                            VersionHandler {
                                dandiset_id,
                                version_spec,
                                endpoint: v.version.clone(),
                            },
                            1,
                        );
                    },
                    None => {
                        return Endpoint::Failed(
                            DavError::NoLatestVersion { dandiset_id: dandiset_id.clone() },
                        );
                    },
                },
                other => {
                    return Endpoint::Failed(archive_error(other));
                },
            }
        },
    };
    Endpoint::Found(VersionHandler { dandiset_id, version_spec, endpoint }, 0)
}

impl<'a> VersionHandler<'a> {
    /// The text of the address of the version, as it was asked for.
    pub open spec fn prefix(&self) -> Seq<char> {
        version_path_text(self.dandiset_id@, self.version_spec@)
    }

    /// The version itself as a collection, made from the archive's answer.
    pub fn get(&self, v: DandisetVersion) -> (col: DavCollection)
        ensures
            col@ == version_collection(v@, self.prefix()),
    {
        let path = version_path(self.dandiset_id, self.version_spec);
        DavCollection::dandiset_version(v, path)
    }

    /// The resources at the top of the version's file tree (without the
    /// `dandiset.yaml` file), made from the archive's answer.
    pub fn get_root_children(&self, resources: Vec<DavResource>) -> (out: Vec<DavResource>)
        ensures
            resource_views(out@) == rebase_all(resource_views(resources@), self.prefix()),
    {
        let prefix = version_path(self.dandiset_id, self.version_spec);
        all_under_path(resources, &prefix)
    }

    /// The version's `dandiset.yaml` file, made from the archive's answer.
    pub fn get_dandiset_yaml(&self, metadata: Vec<u8>) -> (item: DavItem)
        ensures
            item@ == rebase_item(dandiset_yaml_item(metadata@), self.prefix()),
    {
        DavItem::from_metadata(metadata).under_version_path(self.dandiset_id, self.version_spec)
    }

    /// A resource of the version, made from the archive's answer.
    pub fn get_resource(&self, res: DavResource) -> (r: DavResource)
        ensures
            r@ == rebase(res@, self.prefix()),
    {
        res.under_version_path(self.dandiset_id, self.version_spec)
    }

    /// A resource of the version with its children, made from the archive's
    /// answer.
    pub fn get_resource_with_children(&self, res: DavResourceWithChildren) -> (r:
        DavResourceWithChildren)
        ensures
            r@ == rebase_with_children(res@, self.prefix()),
    {
        res.under_version_path(self.dandiset_id, self.version_spec)
    }
}

/// What resolving the address `path`, without its children, comes to after
/// the answers `replies`.
///
/// The root, the two indexes and the releases of a Dandiset are made up by
/// the gateway and need no call.  A Dandiset, a version, its metadata file
/// and a resource inside it are asked of the archive, a version's resources
/// once the version selector has been resolved and with their addresses put
/// under the version as it was asked for.  A resource of the Zarr manifest
/// tree is asked of the manifest store.  A call that fails ends resolution
/// with that failure.
pub open spec fn resource_step(path: DavPathView, replies: Seq<BackendReplyView>) -> StepView<
    DavResourceView,
> {
    match path {
        DavPathView::Root => StepView::Done(Ok(DavResourceView::Collection(root_collection()))),
        DavPathView::DandisetIndex => StepView::Done(
            Ok(DavResourceView::Collection(dandiset_index_collection())),
        ),
        DavPathView::Dandiset { dandiset_id } => if replies.len() == 0 {
            StepView::Call(BackendCallView::GetDandiset { dandiset_id })
        } else {
            match replies[0] {
                BackendReplyView::Dandiset(ds) => StepView::Done(
                    Ok(DavResourceView::Collection(dandiset_collection(ds))),
                ),
                other => StepView::Done(Err(archive_failure(other))),
            }
        },
        DavPathView::DandisetReleases { dandiset_id } => StepView::Done(
            Ok(DavResourceView::Collection(releases_collection(dandiset_id))),
        ),
        DavPathView::Version { dandiset_id, version } => {
            let prefix = version_path_text(dandiset_id, version);
            match version_endpoint(dandiset_id, version, replies) {
                EndpointView::Call(c) => StepView::Call(c),
                EndpointView::Failed(e) => StepView::Done(Err(e)),
                EndpointView::Found { endpoint, used } => if replies.len() <= used {
                    StepView::Call(BackendCallView::GetVersion { dandiset_id, version: endpoint })
                } else {
                    match replies[used as int] {
                        BackendReplyView::Version(v) => StepView::Done(
                            Ok(DavResourceView::Collection(version_collection(v, prefix))),
                        ),
                        other => StepView::Done(Err(archive_failure(other))),
                    }
                },
            }
        },
        DavPathView::DandisetYaml { dandiset_id, version } => {
            let prefix = version_path_text(dandiset_id, version);
            match version_endpoint(dandiset_id, version, replies) {
                EndpointView::Call(c) => StepView::Call(c),
                EndpointView::Failed(e) => StepView::Done(Err(e)),
                EndpointView::Found { endpoint, used } => if replies.len() <= used {
                    StepView::Call(
                        BackendCallView::GetVersionMetadata { dandiset_id, version: endpoint },
                    )
                } else {
                    match replies[used as int] {
                        BackendReplyView::Metadata(md) => StepView::Done(
                            Ok(
                                DavResourceView::Item(
                                    rebase_item(dandiset_yaml_item(md), prefix),
                                ),
                            ),
                        ),
                        other => StepView::Done(Err(archive_failure(other))),
                    }
                },
            }
        },
        DavPathView::DandiResource { dandiset_id, version, path } => {
            let prefix = version_path_text(dandiset_id, version);
            match version_endpoint(dandiset_id, version, replies) {
                EndpointView::Call(c) => StepView::Call(c),
                EndpointView::Failed(e) => StepView::Done(Err(e)),
                EndpointView::Found { endpoint, used } => if replies.len() <= used {
                    StepView::Call(
                        BackendCallView::GetResource { dandiset_id, version: endpoint, path },
                    )
                } else {
                    match replies[used as int] {
                        BackendReplyView::Resource(r) => StepView::Done(Ok(rebase(r, prefix))),
                        other => StepView::Done(Err(archive_failure(other))),
                    }
                },
            }
        },
        DavPathView::ZarrIndex => StepView::Done(
            Ok(DavResourceView::Collection(zarr_index_collection())),
        ),
        DavPathView::ZarrPath { path } => if replies.len() == 0 {
            StepView::Call(BackendCallView::GetZarrResource { path })
        } else {
            match replies[0] {
                BackendReplyView::Resource(r) => StepView::Done(Ok(r)),
                other => StepView::Done(Err(manifest_failure(other))),
            }
        },
    }
}

/// Takes the answer at `at` out of `replies` and drops the others.
fn take_reply(replies: &mut Vec<BackendReply>, at: usize) -> (reply: BackendReply)
    requires
        at < old(replies)@.len(),
    ensures
        reply == old(replies)@[at as int],
        final(replies)@.len() == 0,
{
    let reply = replies.remove(at);
    replies.clear();
    reply
}

/// Whether the step `step`, made of `replies`, is the step `expected`: the
/// same call with the answers left as they were, or the same outcome with
/// the answers used up.
pub open spec fn step_is<T: View>(
    step: Step<T>,
    expected: StepView<T::V>,
    before: Seq<BackendReply>,
    after: Seq<BackendReply>,
) -> bool {
    match step {
        Step::Call(c) => expected == StepView::<T::V>::Call(c@) && after == before,
        Step::Done(Ok(r)) => expected == StepView::<T::V>::Done(Ok(r@)) && after.len() == 0,
        Step::Done(Err(e)) => expected == StepView::<T::V>::Done(Err(e@)) && after.len() == 0,
    }
}

/// The next step in getting the resource at `path`, without its children.
///
/// `replies` holds the answers to the calls that earlier steps asked for, in
/// the order of the calls.  Where a further call is needed, the step names
/// it and leaves `replies` as it is.  Otherwise the step holds the resource,
/// or the error that ends resolution, and `replies` is left empty.
pub fn get_resource(path: &DavPath, replies: &mut Vec<BackendReply>) -> (step: Step<DavResource>)
    ensures
        step_is(
            step,
            resource_step(path@, reply_views(old(replies)@)),
            old(replies)@,
            final(replies)@,
        ),
{
    match path {
        DavPath::Root => {
            replies.clear();
            Step::Done(Ok(DavResource::root()))
        },
        DavPath::DandisetIndex => {
            replies.clear();
            Step::Done(Ok(DavResource::Collection(DavCollection::dandiset_index())))
        },
        DavPath::Dandiset { dandiset_id } => {
            if replies.len() == 0 {
                return Step::Call(BackendCall::GetDandiset { dandiset_id: dandiset_id.clone() });
            }
            match take_reply(replies, 0) {
                BackendReply::Dandiset(ds) => Step::Done(
                    Ok(DavResource::Collection(DavCollection::from_dandiset(ds))),
                ),
                other => Step::Done(Err(archive_error(&other))),
            }
        },
        DavPath::DandisetReleases { dandiset_id } => {
            replies.clear();
            Step::Done(Ok(DavResource::Collection(DavCollection::dandiset_releases(dandiset_id))))
        },
        DavPath::Version { dandiset_id, version } => {
            match get_version_handler(dandiset_id, version, replies) {
                Endpoint::Call(c) => Step::Call(c),
                Endpoint::Failed(e) => {
                    replies.clear();
                    Step::Done(Err(e))
                },
                Endpoint::Found(handler, used) => {
                    if replies.len() <= used {
                        return Step::Call(
                            BackendCall::GetVersion {
                                dandiset_id: dandiset_id.clone(),
                                version: handler.endpoint,
                            },
                        );
                    }
                    match take_reply(replies, used) {
                        BackendReply::Version(v) => Step::Done(
                            Ok(DavResource::Collection(handler.get(v))),
                        ),
                        other => Step::Done(Err(archive_error(&other))),
                    }
                },
            }
        },
        DavPath::DandisetYaml { dandiset_id, version } => {
            match get_version_handler(dandiset_id, version, replies) {
                Endpoint::Call(c) => Step::Call(c),
                Endpoint::Failed(e) => {
                    replies.clear();
                    Step::Done(Err(e))
                },
                Endpoint::Found(handler, used) => {
                    if replies.len() <= used {
                        return Step::Call(
                            BackendCall::GetVersionMetadata {
                                dandiset_id: dandiset_id.clone(),
                                version: handler.endpoint,
                            },
                        );
                    }
                    match take_reply(replies, used) {
                        BackendReply::Metadata(md) => Step::Done(
                            Ok(DavResource::Item(handler.get_dandiset_yaml(md))),
                        ),
                        other => Step::Done(Err(archive_error(&other))),
                    }
                },
            }
        },
        DavPath::DandiResource { dandiset_id, version, path } => {
            match get_version_handler(dandiset_id, version, replies) {
                Endpoint::Call(c) => Step::Call(c),
                Endpoint::Failed(e) => {
                    replies.clear();
                    Step::Done(Err(e))
                },
                Endpoint::Found(handler, used) => {
                    if replies.len() <= used {
                        return Step::Call(
                            BackendCall::GetResource {
                                dandiset_id: dandiset_id.clone(),
                                version: handler.endpoint,
                                path: path.clone(),
                            },
                        );
                    }
                    match take_reply(replies, used) {
                        BackendReply::Resource(r) => Step::Done(Ok(handler.get_resource(r))),
                        other => Step::Done(Err(archive_error(&other))),
                    }
                },
            }
        },
        DavPath::ZarrIndex => {
            replies.clear();
            Step::Done(Ok(DavResource::Collection(DavCollection::zarr_index())))
        },
        DavPath::ZarrPath { path } => {
            if replies.len() == 0 {
                return Step::Call(BackendCall::GetZarrResource { path: path.clone() });
            }
            match take_reply(replies, 0) {
                BackendReply::Resource(r) => Step::Done(Ok(r)),
                other => Step::Done(Err(manifest_error(&other))),
            }
        },
    }
}

/// Each Dandiset as a collection, in order.
pub open spec fn dandiset_children(dandisets: Seq<DandisetView>) -> Seq<DavResourceView> {
    dandisets.map_values(|ds: DandisetView| DavResourceView::Collection(dandiset_collection(ds)))
}

/// The children of a Dandiset: its draft; and, where it has been published,
/// the version published last under the name `latest`, and its releases.
pub open spec fn version_children(dandiset_id: Seq<char>, ds: DandisetView) -> Seq<
    DavResourceView,
> {
    let draft = DavResourceView::Collection(
        version_collection(
            ds.draft_version,
            version_path_text(dandiset_id, VersionSpecView::Draft),
        ),
    );
    match ds.most_recent_published_version {
        Some(v) => seq![
            draft,
            DavResourceView::Collection(
                version_collection(v, version_path_text(dandiset_id, VersionSpecView::Latest)),
            ),
            DavResourceView::Collection(releases_collection(dandiset_id)),
        ],
        None => seq![draft],
    }
}

/// The published ones among `versions`, in order, each as a collection
/// addressed by its own identifier.  The draft is left out.  A Dandiset that
/// has never been published has releases all the same: a collection without
/// children, not a missing one.
pub open spec fn release_children(
    dandiset_id: Seq<char>,
    versions: Seq<DandisetVersionView>,
) -> Seq<DavResourceView>
    decreases versions.len(),
{
    if versions.len() == 0 {
        Seq::<DavResourceView>::empty()
    } else {
        let before = release_children(dandiset_id, versions.drop_last());
        let v = versions.last();
        match v.version {
            VersionIdView::Published(id) => before.push(
                DavResourceView::Collection(
                    version_collection(
                        v,
                        version_path_text(dandiset_id, VersionSpecView::Published(id)),
                    ),
                ),
            ),
            VersionIdView::Draft => before,
        }
    }
}

/// A collection with the given children.
pub open spec fn listing(
    col: DavCollectionView,
    children: Seq<DavResourceView>,
) -> StepView<DavResourceWithChildrenView> {
    StepView::Done(Ok(DavResourceWithChildrenView::Collection { col, children }))
}

/// What resolving the address `path`, with its children, comes to after the
/// answers `replies`.
///
/// The children of the root are the two indexes.  Those of the Dandiset
/// index are all Dandisets, and those of the Zarr index the top-level
/// directories of the manifest store, in the order of the backend.  A
/// Dandiset has the children that [`version_children`] names, its releases
/// those that [`release_children`] names.  The children of a version are the
/// resources at its top, in the order of the archive, followed by its
/// `dandiset.yaml` file; it takes three calls to list them, after the
/// version selector has been resolved.  Whatever lies under a version is
/// addressed under the version as it was asked for.  A call that fails ends
/// resolution with that failure.
pub open spec fn children_step(path: DavPathView, replies: Seq<BackendReplyView>) -> StepView<
    DavResourceWithChildrenView,
> {
    match path {
        DavPathView::Root => StepView::Done(Ok(root_with_children())),
        DavPathView::DandisetIndex => if replies.len() == 0 {
            StepView::Call(BackendCallView::GetAllDandisets)
        } else {
            match replies[0] {
                BackendReplyView::Dandisets(all) => listing(
                    dandiset_index_collection(),
                    dandiset_children(all),
                ),
                other => StepView::Done(Err(archive_failure(other))),
            }
        },
        DavPathView::Dandiset { dandiset_id } => if replies.len() == 0 {
            StepView::Call(BackendCallView::GetDandiset { dandiset_id })
        } else {
            match replies[0] {
                BackendReplyView::Dandiset(ds) => listing(
                    dandiset_collection(ds),
                    version_children(dandiset_id, ds),
                ),
                other => StepView::Done(Err(archive_failure(other))),
            }
        },
        DavPathView::DandisetReleases { dandiset_id } => if replies.len() == 0 {
            StepView::Call(BackendCallView::GetAllVersions { dandiset_id })
        } else {
            match replies[0] {
                BackendReplyView::Versions(all) => listing(
                    releases_collection(dandiset_id),
                    release_children(dandiset_id, all),
                ),
                other => StepView::Done(Err(archive_failure(other))),
            }
        },
        DavPathView::Version { dandiset_id, version } => {
            let prefix = version_path_text(dandiset_id, version);
            match version_endpoint(dandiset_id, version, replies) {
                EndpointView::Call(c) => StepView::Call(c),
                EndpointView::Failed(e) => StepView::Done(Err(e)),
                EndpointView::Found { endpoint, used } => if replies.len() <= used {
                    StepView::Call(BackendCallView::GetVersion { dandiset_id, version: endpoint })
                } else {
                    match replies[used as int] {
                        BackendReplyView::Version(v) => if replies.len() <= used + 1 {
                            StepView::Call(
                                BackendCallView::GetRootChildren { dandiset_id, version: endpoint },
                            )
                        } else {
                            match replies[used as int + 1] {
                                BackendReplyView::Resources(top) => if replies.len() <= used + 2 {
                                    StepView::Call(
                                        BackendCallView::GetVersionMetadata {
                                            dandiset_id,
                                            version: endpoint,
                                        },
                                    )
                                } else {
                                    match replies[used as int + 2] {
                                        BackendReplyView::Metadata(md) => listing(
                                            version_collection(v, prefix),
                                            rebase_all(top, prefix).push(
                                                DavResourceView::Item(
                                                    rebase_item(dandiset_yaml_item(md), prefix),
                                                ),
                                            ),
                                        ),
                                        other => StepView::Done(Err(archive_failure(other))),
                                    }
                                },
                                other => StepView::Done(Err(archive_failure(other))),
                            }
                        },
                        other => StepView::Done(Err(archive_failure(other))),
                    }
                },
            }
        },
        DavPathView::DandisetYaml { dandiset_id, version } => {
            let prefix = version_path_text(dandiset_id, version);
            match version_endpoint(dandiset_id, version, replies) {
                EndpointView::Call(c) => StepView::Call(c),
                EndpointView::Failed(e) => StepView::Done(Err(e)),
                EndpointView::Found { endpoint, used } => if replies.len() <= used {
                    StepView::Call(
                        BackendCallView::GetVersionMetadata { dandiset_id, version: endpoint },
                    )
                } else {
                    match replies[used as int] {
                        BackendReplyView::Metadata(md) => StepView::Done(
                            Ok(
                                DavResourceWithChildrenView::Item(
                                    rebase_item(dandiset_yaml_item(md), prefix),
                                ),
                            ),
                        ),
                        other => StepView::Done(Err(archive_failure(other))),
                    }
                },
            }
        },
        DavPathView::DandiResource { dandiset_id, version, path } => {
            let prefix = version_path_text(dandiset_id, version);
            match version_endpoint(dandiset_id, version, replies) {
                EndpointView::Call(c) => StepView::Call(c),
                EndpointView::Failed(e) => StepView::Done(Err(e)),
                EndpointView::Found { endpoint, used } => if replies.len() <= used {
                    StepView::Call(
                        BackendCallView::GetResourceWithChildren {
                            dandiset_id,
                            version: endpoint,
                            path,
                        },
                    )
                } else {
                    match replies[used as int] {
                        BackendReplyView::ResourceWithChildren(r) => StepView::Done(
                            Ok(rebase_with_children(r, prefix)),
                        ),
                        other => StepView::Done(Err(archive_failure(other))),
                    }
                },
            }
        },
        DavPathView::ZarrIndex => if replies.len() == 0 {
            StepView::Call(BackendCallView::GetZarrTopLevelDirs)
        } else {
            match replies[0] {
                BackendReplyView::Resources(dirs) => listing(zarr_index_collection(), dirs),
                other => StepView::Done(Err(manifest_failure(other))),
            }
        },
        DavPathView::ZarrPath { path } => if replies.len() == 0 {
            StepView::Call(BackendCallView::GetZarrResourceWithChildren { path })
        } else {
            match replies[0] {
                BackendReplyView::ResourceWithChildren(r) => StepView::Done(Ok(r)),
                other => StepView::Done(Err(manifest_failure(other))),
            }
        },
    }
}

/// Each of `dandisets` as a collection, in order.
pub fn dandiset_collections(dandisets: Vec<Dandiset>) -> (out: Vec<DavResource>)
    ensures
        resource_views(out@) == dandiset_children(dandiset_views(dandisets@)),
{
    let ghost given = dandisets@;
    let mut out: Vec<DavResource> = Vec::new();
    for ds in it: dandisets.into_iter()
        invariant
            it.seq() == given,
            out@.len() == it.index(),
            forall|k: int|
                0 <= k < out@.len() ==> (#[trigger] out@[k])@ == DavResourceView::Collection(
                    dandiset_collection(given[k]@),
                ),
    {
        out.push(DavResource::Collection(DavCollection::from_dandiset(ds)));
    }
    assert(resource_views(out@) =~= dandiset_children(dandiset_views(given)));
    out
}

/// The children of the Dandiset `dandiset_id`, of which the archive says
/// `ds`: `draft` first, then `latest` and `releases` where the Dandiset has
/// been published.  The first value is the Dandiset's own collection.
pub fn dandiset_listing(dandiset_id: &DandisetId, ds: Dandiset) -> (r: (DavCollection, Vec<
    DavResource,
>))
    ensures
        r.0@ == dandiset_collection(ds@),
        resource_views(r.1@) == version_children(dandiset_id@, ds@),
{
    let col = DavCollection::of_dandiset(&ds);
    let Dandiset { draft_version, most_recent_published_version, .. } = ds;
    let ghost draft_view = draft_version@;
    let mut children: Vec<DavResource> = Vec::new();
    children.push(
        DavResource::Collection(
            DavCollection::dandiset_version(
                draft_version,
                version_path(dandiset_id, &VersionSpec::Draft),
            ),
        ),
    );
    match most_recent_published_version {
        Some(v) => {
            let ghost v_view = v@;
            children.push(
                DavResource::Collection(
                    DavCollection::dandiset_version(
                        v,
                        version_path(dandiset_id, &VersionSpec::Latest),
                    ),
                ),
            );
            children.push(DavResource::Collection(DavCollection::dandiset_releases(dandiset_id)));
            assert(resource_views(children@) =~= seq![
                DavResourceView::Collection(
                    version_collection(
                        draft_view,
                        version_path_text(dandiset_id@, VersionSpecView::Draft),
                    ),
                ),
                DavResourceView::Collection(
                    version_collection(
                        v_view,
                        version_path_text(dandiset_id@, VersionSpecView::Latest),
                    ),
                ),
                DavResourceView::Collection(releases_collection(dandiset_id@)),
            ]);
        },
        None => {
            assert(resource_views(children@) =~= seq![
                DavResourceView::Collection(
                    version_collection(
                        draft_view,
                        version_path_text(dandiset_id@, VersionSpecView::Draft),
                    ),
                ),
            ]);
        },
    }
    (col, children)
}

/// The published ones among `versions`, in order, each as a collection
/// addressed by its own identifier.
pub fn release_collections(dandiset_id: &DandisetId, versions: Vec<DandisetVersion>) -> (out:
    Vec<DavResource>)
    ensures
        resource_views(out@) == release_children(dandiset_id@, version_views(versions@)),
{
    let ghost given = versions@;
    let ghost views = version_views(versions@);
    let mut out: Vec<DavResource> = Vec::new();
    assert(views.take(0) =~= Seq::<DandisetVersionView>::empty());
    assert(resource_views(out@) =~= Seq::<DavResourceView>::empty());
    for v in it: versions.into_iter()
        invariant
            it.seq() == given,
            views == version_views(given),
            resource_views(out@) == release_children(dandiset_id@, views.take(it.index() as int)),
    {
        let ghost before = resource_views(out@);
        let ghost k = it.index() as int;
        proof {
            assert(views.take(k + 1).drop_last() =~= views.take(k));
            assert(views.take(k + 1).last() == v@);
        }
        let path = match &v.version {
            VersionId::Published(id) => Some(
                version_path(dandiset_id, &VersionSpec::Published(id.clone())),
            ),
            VersionId::Draft => None,
        };
        match path {
            Some(path) => {
                let child = DavResource::Collection(DavCollection::dandiset_version(v, path));
                let ghost child_view = child@;
                out.push(child);
                assert(resource_views(out@) =~= before.push(child_view));
            },
            None => {},
        }
    }
    assert(views.take(given.len() as int) =~= views);
    out
}

/// The next step in getting the resource at `path` along with its immediate
/// children, if it has any.  The children of a version include its
/// `dandiset.yaml` file.
///
/// `replies` holds the answers to the calls that earlier steps asked for, in
/// the order of the calls.  Where a further call is needed, the step names
/// it and leaves `replies` as it is.  Otherwise the step holds the resource
/// with its children, or the error that ends resolution, and `replies` is
/// left empty.
pub fn get_resource_with_children(path: &DavPath, replies: &mut Vec<BackendReply>) -> (step:
    Step<DavResourceWithChildren>)
    ensures
        step_is(
            step,
            children_step(path@, reply_views(old(replies)@)),
            old(replies)@,
            final(replies)@,
        ),
{
    match path {
        DavPath::Root => {
            replies.clear();
            Step::Done(Ok(DavResourceWithChildren::root()))
        },
        DavPath::DandisetIndex => {
            if replies.len() == 0 {
                return Step::Call(BackendCall::GetAllDandisets);
            }
            match take_reply(replies, 0) {
                BackendReply::Dandisets(all) => {
                    let col = DavCollection::dandiset_index();
                    let children = dandiset_collections(all);
                    Step::Done(Ok(DavResourceWithChildren::Collection { col, children }))
                },
                other => Step::Done(Err(archive_error(&other))),
            }
        },
        DavPath::Dandiset { dandiset_id } => {
            if replies.len() == 0 {
                return Step::Call(BackendCall::GetDandiset { dandiset_id: dandiset_id.clone() });
            }
            match take_reply(replies, 0) {
                BackendReply::Dandiset(ds) => {
                    let (col, children) = dandiset_listing(dandiset_id, ds);
                    Step::Done(Ok(DavResourceWithChildren::Collection { col, children }))
                },
                other => Step::Done(Err(archive_error(&other))),
            }
        },
        DavPath::DandisetReleases { dandiset_id } => {
            if replies.len() == 0 {
                return Step::Call(
                    BackendCall::GetAllVersions { dandiset_id: dandiset_id.clone() },
                );
            }
            match take_reply(replies, 0) {
                BackendReply::Versions(all) => {
                    let col = DavCollection::dandiset_releases(dandiset_id);
                    let children = release_collections(dandiset_id, all);
                    Step::Done(Ok(DavResourceWithChildren::Collection { col, children }))
                },
                other => Step::Done(Err(archive_error(&other))),
            }
        },
        DavPath::Version { dandiset_id, version } => {
            match get_version_handler(dandiset_id, version, replies) {
                Endpoint::Call(c) => Step::Call(c),
                Endpoint::Failed(e) => {
                    replies.clear();
                    Step::Done(Err(e))
                },
                Endpoint::Found(handler, used) => version_listing(handler, used, replies),
            }
        },
        DavPath::DandisetYaml { dandiset_id, version } => {
            match get_version_handler(dandiset_id, version, replies) {
                Endpoint::Call(c) => Step::Call(c),
                Endpoint::Failed(e) => {
                    replies.clear();
                    Step::Done(Err(e))
                },
                Endpoint::Found(handler, used) => {
                    if replies.len() <= used {
                        return Step::Call(
                            BackendCall::GetVersionMetadata {
                                dandiset_id: dandiset_id.clone(),
                                version: handler.endpoint,
                            },
                        );
                    }
                    match take_reply(replies, used) {
                        BackendReply::Metadata(md) => Step::Done(
                            Ok(DavResourceWithChildren::Item(handler.get_dandiset_yaml(md))),
                        ),
                        other => Step::Done(Err(archive_error(&other))),
                    }
                },
            }
        },
        DavPath::DandiResource { dandiset_id, version, path } => {
            match get_version_handler(dandiset_id, version, replies) {
                Endpoint::Call(c) => Step::Call(c),
                Endpoint::Failed(e) => {
                    replies.clear();
                    Step::Done(Err(e))
                },
                Endpoint::Found(handler, used) => {
                    if replies.len() <= used {
                        return Step::Call(
                            BackendCall::GetResourceWithChildren {
                                dandiset_id: dandiset_id.clone(),
                                version: handler.endpoint,
                                path: path.clone(),
                            },
                        );
                    }
                    match take_reply(replies, used) {
                        BackendReply::ResourceWithChildren(r) => Step::Done(
                            Ok(handler.get_resource_with_children(r)),
                        ),
                        other => Step::Done(Err(archive_error(&other))),
                    }
                },
            }
        },
        DavPath::ZarrIndex => {
            if replies.len() == 0 {
                return Step::Call(BackendCall::GetZarrTopLevelDirs);
            }
            match take_reply(replies, 0) {
                BackendReply::Resources(children) => {
                    let col = DavCollection::zarr_index();
                    Step::Done(Ok(DavResourceWithChildren::Collection { col, children }))
                },
                other => Step::Done(Err(manifest_error(&other))),
            }
        },
        DavPath::ZarrPath { path } => {
            if replies.len() == 0 {
                return Step::Call(BackendCall::GetZarrResourceWithChildren { path: path.clone() });
            }
            match take_reply(replies, 0) {
                BackendReply::ResourceWithChildren(r) => Step::Done(Ok(r)),
                other => Step::Done(Err(manifest_error(&other))),
            }
        },
    }
}

/// The next step in listing the version that `handler` stands for.
fn version_listing(handler: VersionHandler<'_>, used: usize, replies: &mut Vec<BackendReply>) -> (step:
    Step<DavResourceWithChildren>)
    requires
        used <= 1,
        version_endpoint(
            handler.dandiset_id@,
            handler.version_spec@,
            reply_views(old(replies)@),
        ) == (EndpointView::Found { endpoint: handler.endpoint@, used: used as nat }),
    ensures
        step_is(
            step,
            children_step(
                DavPathView::Version {
                    dandiset_id: handler.dandiset_id@,
                    version: handler.version_spec@,
                },
                reply_views(old(replies)@),
            ),
            old(replies)@,
            final(replies)@,
        ),
{
    let n = replies.len();
    if n <= used {
        return Step::Call(
            BackendCall::GetVersion {
                dandiset_id: handler.dandiset_id.clone(),
                version: handler.endpoint,
            },
        );
    }
    if !matches!(replies[used], BackendReply::Version(_)) {
        let other = take_reply(replies, used);
        return Step::Done(Err(archive_error(&other)));
    }
    if n <= used + 1 {
        return Step::Call(
            BackendCall::GetRootChildren {
                dandiset_id: handler.dandiset_id.clone(),
                version: handler.endpoint,
            },
        );
    }
    if !matches!(replies[used + 1], BackendReply::Resources(_)) {
        let other = take_reply(replies, used + 1);
        return Step::Done(Err(archive_error(&other)));
    }
    if n <= used + 2 {
        return Step::Call(
            BackendCall::GetVersionMetadata {
                dandiset_id: handler.dandiset_id.clone(),
                version: handler.endpoint,
            },
        );
    }
    let third = replies.remove(used + 2);
    let second = replies.remove(used + 1);
    let first = replies.remove(used);
    replies.clear();
    match (first, second, third) {
        (BackendReply::Version(v), BackendReply::Resources(top), BackendReply::Metadata(md)) => {
            let col = handler.get(v);
            let mut children = handler.get_root_children(top);
            let ghost moved = resource_views(children@);
            let yaml = DavResource::Item(handler.get_dandiset_yaml(md));
            let ghost yaml_view = yaml@;
            children.push(yaml);
            assert(resource_views(children@) =~= moved.push(yaml_view));
            Step::Done(Ok(DavResourceWithChildren::Collection { col, children }))
        },
        (_, _, other) => Step::Done(Err(archive_error(&other))),
    }
}

} // verus!
