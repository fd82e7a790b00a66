//! The resources that the gateway serves.

use crate::dav::archive::{Dandiset, DandisetVersion, DandisetVersionView, DandisetView};
use crate::dav::ids::DandisetId;
use crate::dav::path::{version_path, version_path_text, VersionSpec};
use crate::dav::words::{
    lemma_dandiset_yaml_component, lemma_dandisets_component, lemma_releases_component,
    lemma_zarrs_component,
};
use crate::paths::component::Component;
use crate::paths::dirpath::PureDirPath;
use crate::paths::purepath::PurePath;
use crate::dav::time::Timestamp;
use vstd::prelude::*;

verus! {

/// What sort of thing a resource is.
#[derive(Clone, Copy, Debug, PartialEq, Eq, Structural)]
pub enum ResourceKind {
    Root,
    DandisetIndex,
    Dandiset,
    DandisetReleases,
    Version,
    VersionMetadata,
    Directory,
    Blob,
    Zarr,
    ZarrEntry,
    ZarrFolder,
    ZarrIndex,
}

/// The text of an optional string.
pub open spec fn text_of(s: Option<String>) -> Option<Seq<char>> {
    match s {
        Some(s) => Some(s@),
        None => None,
    }
}

/// Where a `GET` of an item is sent on to.
#[derive(Debug)]
pub enum Redirect {
    /// The only URL there is.
    Direct(String),
    /// A URL of the storage itself and a URL of the archive that leads to it.
    Alt { s3: String, archive: String },
}

/// A [`Redirect`] as plain text.
pub enum RedirectView {
    Direct(Seq<char>),
    Alt { s3: Seq<char>, archive: Seq<char> },
}

impl View for Redirect {
    type V = RedirectView;

    open spec fn view(&self) -> RedirectView {
        match self {
            Redirect::Direct(url) => RedirectView::Direct(url@),
            Redirect::Alt { s3, archive } => RedirectView::Alt { s3: s3@, archive: archive@ },
        }
    }
}

/// The URL that a redirect leads to: the only one, or of the two the one
/// that is preferred.
pub open spec fn redirect_url(r: RedirectView, prefer_s3: bool) -> Seq<char> {
    match r {
        RedirectView::Direct(url) => url,
        RedirectView::Alt { s3, archive } => if prefer_s3 {
            s3
        } else {
            archive
        },
    }
}

impl Redirect {
    /// The URL to redirect to.  Where there are two, `prefer_s3` chooses
    /// the URL of the storage over that of the archive.
    pub fn get_url(&self, prefer_s3: bool) -> (url: &str)
        ensures
            url@ == redirect_url(self@, prefer_s3),
    {
        match self {
            Redirect::Direct(url) => url.as_str(),
            Redirect::Alt { s3, archive } => if prefer_s3 {
                s3.as_str()
            } else {
                archive.as_str()
            },
        }
    }
}

/// What a `GET` of an item yields.
#[derive(Debug)]
pub enum DavContent {
    /// The bytes of the item.
    Blob(Vec<u8>),
    /// A redirect to where the bytes are.
    Redirect(Redirect),
    /// Nothing: the item has no content to serve.
    Missing,
}

/// A [`DavContent`] as plain values.
pub enum DavContentView {
    Blob(Seq<u8>),
    Redirect(RedirectView),
    Missing,
}

impl View for DavContent {
    type V = DavContentView;

    open spec fn view(&self) -> DavContentView {
        match self {
            DavContent::Blob(bytes) => DavContentView::Blob(bytes@),
            DavContent::Redirect(r) => DavContentView::Redirect(r@),
            DavContent::Missing => DavContentView::Missing,
        }
    }
}

/// A collection: a resource that has children.
#[derive(Debug)]
pub struct DavCollection {
    /// The address of the collection; `None` for the root.
    pub path: Option<PureDirPath>,
    /// When the collection was created.
    pub created: Option<Timestamp>,
    /// When the collection was last modified.
    pub modified: Option<Timestamp>,
    /// The size of the collection in bytes, where it is known.
    pub size: Option<i64>,
    pub kind: ResourceKind,
    /// Where the metadata of the collection can be had.
    pub metadata_url: Option<String>,
}

/// A [`DavCollection`] as plain values.
pub struct DavCollectionView {
    pub path: Option<Seq<char>>,
    pub created: Option<Timestamp>,
    pub modified: Option<Timestamp>,
    pub size: Option<i64>,
    pub kind: ResourceKind,
    pub metadata_url: Option<Seq<char>>,
}

impl View for DavCollection {
    type V = DavCollectionView;

    open spec fn view(&self) -> DavCollectionView {
        DavCollectionView {
            path: match self.path {
                Some(p) => Some(p@),
                None => None,
            },
            created: self.created,
            modified: self.modified,
            size: self.size,
            kind: self.kind,
            metadata_url: text_of(self.metadata_url),
        }
    }
}

/// An item: a resource that has content and no children.
#[derive(Debug)]
pub struct DavItem {
    /// The address of the item.
    pub path: PurePath,
    pub created: Option<Timestamp>,
    pub modified: Option<Timestamp>,
    pub content_type: String,
    pub size: Option<i64>,
    pub etag: Option<String>,
    pub kind: ResourceKind,
    pub content: DavContent,
    pub metadata_url: Option<String>,
}

/// A [`DavItem`] as plain values.
pub struct DavItemView {
    pub path: Seq<char>,
    pub created: Option<Timestamp>,
    pub modified: Option<Timestamp>,
    pub content_type: Seq<char>,
    pub size: Option<i64>,
    pub etag: Option<Seq<char>>,
    pub kind: ResourceKind,
    pub content: DavContentView,
    pub metadata_url: Option<Seq<char>>,
}

impl View for DavItem {
    type V = DavItemView;

    open spec fn view(&self) -> DavItemView {
        DavItemView {
            path: self.path@,
            created: self.created,
            modified: self.modified,
            content_type: self.content_type@,
            size: self.size,
            etag: text_of(self.etag),
            kind: self.kind,
            content: self.content@,
            metadata_url: text_of(self.metadata_url),
        }
    }
}

/// A resource without its children.
#[derive(Debug)]
pub enum DavResource {
    Collection(DavCollection),
    Item(DavItem),
}

/// A [`DavResource`] as plain values.
pub enum DavResourceView {
    Collection(DavCollectionView),
    Item(DavItemView),
}

impl View for DavResource {
    type V = DavResourceView;

    open spec fn view(&self) -> DavResourceView {
        match self {
            DavResource::Collection(col) => DavResourceView::Collection(col@),
            DavResource::Item(item) => DavResourceView::Item(item@),
        }
    }
}

/// The views of a list of resources.
pub open spec fn resource_views(rs: Seq<DavResource>) -> Seq<DavResourceView> {
    rs.map_values(|r: DavResource| r@)
}

/// A resource with its immediate children.
#[derive(Debug)]
pub enum DavResourceWithChildren {
    Collection { col: DavCollection, children: Vec<DavResource> },
    Item(DavItem),
}

/// A [`DavResourceWithChildren`] as plain values.
pub enum DavResourceWithChildrenView {
    Collection { col: DavCollectionView, children: Seq<DavResourceView> },
    Item(DavItemView),
}

impl View for DavResourceWithChildren {
    type V = DavResourceWithChildrenView;

    open spec fn view(&self) -> DavResourceWithChildrenView {
        match self {
            DavResourceWithChildren::Collection { col, children } => {
                DavResourceWithChildrenView::Collection {
                    col: col@,
                    children: resource_views(children@),
                }
            },
            DavResourceWithChildren::Item(item) => DavResourceWithChildrenView::Item(item@),
        }
    }
}

/// The collection with its address put under `prefix`.  The root, which has
/// no address, gets `prefix` itself.
pub open spec fn rebase_collection(col: DavCollectionView, prefix: Seq<char>) -> DavCollectionView {
    DavCollectionView {
        path: Some(
            match col.path {
                Some(p) => prefix + p,
                None => prefix,
            },
        ),
        ..col
    }
}

/// The item with its address put under `prefix`.
pub open spec fn rebase_item(item: DavItemView, prefix: Seq<char>) -> DavItemView {
    DavItemView { path: prefix + item.path, ..item }
}

/// The resource with its address put under `prefix`.
pub open spec fn rebase(r: DavResourceView, prefix: Seq<char>) -> DavResourceView {
    match r {
        DavResourceView::Collection(col) => DavResourceView::Collection(
            rebase_collection(col, prefix),
        ),
        DavResourceView::Item(item) => DavResourceView::Item(rebase_item(item, prefix)),
    }
}

/// Each of the resources with its address put under `prefix`.
pub open spec fn rebase_all(rs: Seq<DavResourceView>, prefix: Seq<char>) -> Seq<DavResourceView> {
    rs.map_values(|r: DavResourceView| rebase(r, prefix))
}

/// The resource and each of its children with their addresses put under
/// `prefix`.
pub open spec fn rebase_with_children(
    r: DavResourceWithChildrenView,
    prefix: Seq<char>,
) -> DavResourceWithChildrenView {
    match r {
        DavResourceWithChildrenView::Collection { col, children } => {
            DavResourceWithChildrenView::Collection {
                col: rebase_collection(col, prefix),
                children: rebase_all(children, prefix),
            }
        },
        DavResourceWithChildrenView::Item(item) => DavResourceWithChildrenView::Item(
            rebase_item(item, prefix),
        ),
    }
}

impl DavCollection {
    /// The collection with its address put under `prefix`.
    pub fn under_path(self, prefix: &PureDirPath) -> (r: DavCollection)
        ensures
            r@ == rebase_collection(self@, prefix@),
    {
        let path = match &self.path {
            Some(p) => prefix.join_dir(p),
            None => prefix.clone(),
        };
        DavCollection {
            path: Some(path),
            created: self.created,
            modified: self.modified,
            size: self.size,
            kind: self.kind,
            metadata_url: self.metadata_url,
        }
    }

    /// The collection with its address put under that of the version
    /// `version` of the Dandiset `dandiset_id`.
    pub fn under_version_path(self, dandiset_id: &DandisetId, version: &VersionSpec) -> (r:
        DavCollection)
        ensures
            r@ == rebase_collection(self@, version_path_text(dandiset_id@, version@)),
    {
        let prefix = version_path(dandiset_id, version);
        self.under_path(&prefix)
    }
}

impl DavItem {
    /// The item with its address put under `prefix`.
    pub fn under_path(self, prefix: &PureDirPath) -> (r: DavItem)
        ensures
            r@ == rebase_item(self@, prefix@),
    {
        let path = prefix.join(&self.path);
        DavItem {
            path,
            created: self.created,
            modified: self.modified,
            content_type: self.content_type,
            size: self.size,
            etag: self.etag,
            kind: self.kind,
            content: self.content,
            metadata_url: self.metadata_url,
        }
    }

    /// The item with its address put under that of the version `version` of
    /// the Dandiset `dandiset_id`.
    pub fn under_version_path(self, dandiset_id: &DandisetId, version: &VersionSpec) -> (r:
        DavItem)
        ensures
            r@ == rebase_item(self@, version_path_text(dandiset_id@, version@)),
    {
        let prefix = version_path(dandiset_id, version);
        self.under_path(&prefix)
    }
}

impl DavResource {
    /// The resource with its address put under `prefix`.
    pub fn under_path(self, prefix: &PureDirPath) -> (r: DavResource)
        ensures
            r@ == rebase(self@, prefix@),
    {
        match self {
            DavResource::Collection(col) => DavResource::Collection(col.under_path(prefix)),
            DavResource::Item(item) => DavResource::Item(item.under_path(prefix)),
        }
    }

    /// The resource with its address put under that of the version
    /// `version` of the Dandiset `dandiset_id`.
    pub fn under_version_path(self, dandiset_id: &DandisetId, version: &VersionSpec) -> (r:
        DavResource)
        ensures
            r@ == rebase(self@, version_path_text(dandiset_id@, version@)),
    {
        let prefix = version_path(dandiset_id, version);
        self.under_path(&prefix)
    }
}

/// Each of `resources`, in order, with its address put under `prefix`.
pub fn all_under_path(resources: Vec<DavResource>, prefix: &PureDirPath) -> (out: Vec<
    DavResource,
>)
    ensures
        resource_views(out@) == rebase_all(resource_views(resources@), prefix@),
{
    let ghost given = resources@;
    let mut out: Vec<DavResource> = Vec::new();
    for r in it: resources.into_iter()
        invariant
            it.seq() == given,
            out@.len() == it.index(),
            forall|k: int| 0 <= k < out@.len() ==> (#[trigger] out@[k])@ == rebase(given[k]@, prefix@),
    {
        out.push(r.under_path(prefix));
    }
    assert(resource_views(out@) =~= rebase_all(resource_views(given), prefix@));
    out
}

impl DavResourceWithChildren {
    /// The resource and each of its children with their addresses put under
    /// `prefix`.
    pub fn under_path(self, prefix: &PureDirPath) -> (r: DavResourceWithChildren)
        ensures
            r@ == rebase_with_children(self@, prefix@),
    {
        match self {
            DavResourceWithChildren::Collection { col, children } => {
                DavResourceWithChildren::Collection {
                    col: col.under_path(prefix),
                    children: all_under_path(children, prefix),
                }
            },
            DavResourceWithChildren::Item(item) => DavResourceWithChildren::Item(
                item.under_path(prefix),
            ),
        }
    }

    /// The resource and each of its children with their addresses put under
    /// that of the version `version` of the Dandiset `dandiset_id`.
    pub fn under_version_path(self, dandiset_id: &DandisetId, version: &VersionSpec) -> (r:
        DavResourceWithChildren)
        ensures
            r@ == rebase_with_children(self@, version_path_text(dandiset_id@, version@)),
    {
        let prefix = version_path(dandiset_id, version);
        self.under_path(&prefix)
    }

    /// The resource itself followed by its children, in order.
    pub fn into_vec(self) -> (v: Vec<DavResource>)
        ensures
            resource_views(v@) == flattened(self@),
    {
        match self {
            DavResourceWithChildren::Collection { col, children } => {
                let ghost given = children@;
                let ghost head = col@;
                let mut v: Vec<DavResource> = Vec::new();
                v.push(DavResource::Collection(col));
                for r in it: children.into_iter()
                    invariant
                        it.seq() == given,
                        v@.len() == it.index() + 1,
                        v@[0]@ == DavResourceView::Collection(head),
                        forall|k: int| 1 <= k < v@.len() ==> #[trigger] v@[k] == given[k - 1],
                {
                    v.push(r);
                }
                assert(resource_views(v@) =~= seq![DavResourceView::Collection(head)]
                    + resource_views(given));
                v
            },
            DavResourceWithChildren::Item(item) => {
                let ghost head = item@;
                let mut v: Vec<DavResource> = Vec::new();
                v.push(DavResource::Item(item));
                assert(resource_views(v@) =~= seq![DavResourceView::Item(head)]);
                v
            },
        }
    }
}

/// A resource followed by its children: the resources that a listing of
/// depth one reports.
pub open spec fn flattened(r: DavResourceWithChildrenView) -> Seq<DavResourceView> {
    match r {
        DavResourceWithChildrenView::Collection { col, children } => seq![
            DavResourceView::Collection(col),
        ] + children,
        DavResourceWithChildrenView::Item(item) => seq![DavResourceView::Item(item)],
    }
}

/// The root of the hierarchy, which has no address.
pub open spec fn root_collection() -> DavCollectionView {
    DavCollectionView {
        path: None,
        created: None,
        modified: None,
        size: None,
        kind: ResourceKind::Root,
        metadata_url: None,
    }
}

/// A collection that is made up by the gateway and has an address only.
pub open spec fn synthetic_collection(path: Seq<char>, kind: ResourceKind) -> DavCollectionView {
    DavCollectionView {
        path: Some(path),
        created: None,
        modified: None,
        size: None,
        kind,
        metadata_url: None,
    }
}

/// The list of all Dandisets, at `dandisets/`.
pub open spec fn dandiset_index_collection() -> DavCollectionView {
    synthetic_collection("dandisets"@ + seq!['/'], ResourceKind::DandisetIndex)
}

/// The top of the Zarr manifest tree, at `zarrs/`.
pub open spec fn zarr_index_collection() -> DavCollectionView {
    synthetic_collection("zarrs"@ + seq!['/'], ResourceKind::ZarrIndex)
}

/// The address of a Dandiset: `dandisets/<id>/`.
pub open spec fn dandiset_path_text(dandiset_id: Seq<char>) -> Seq<char> {
    "dandisets"@ + seq!['/'] + dandiset_id + seq!['/']
}

/// The published versions of a Dandiset, at `dandisets/<id>/releases/`.
pub open spec fn releases_collection(dandiset_id: Seq<char>) -> DavCollectionView {
    synthetic_collection(
        dandiset_path_text(dandiset_id) + "releases"@ + seq!['/'],
        ResourceKind::DandisetReleases,
    )
}

/// A version of a Dandiset as a collection at `path`.
pub open spec fn version_collection(v: DandisetVersionView, path: Seq<char>) -> DavCollectionView {
    DavCollectionView {
        path: Some(path),
        created: Some(v.created),
        modified: Some(v.modified),
        size: Some(v.size),
        kind: ResourceKind::Version,
        metadata_url: Some(v.metadata_url),
    }
}

/// A Dandiset as a collection at `dandisets/<id>/`.
pub open spec fn dandiset_collection(ds: DandisetView) -> DavCollectionView {
    DavCollectionView {
        path: Some(dandiset_path_text(ds.identifier)),
        created: Some(ds.created),
        modified: Some(ds.modified),
        size: None,
        kind: ResourceKind::Dandiset,
        metadata_url: None,
    }
}

/// The size of `len` bytes, where it fits.
pub open spec fn byte_size(len: nat) -> Option<i64> {
    if len <= i64::MAX {
        Some(len as i64)
    } else {
        None
    }
}

/// The metadata of a version as the item `dandiset.yaml`.
pub open spec fn dandiset_yaml_item(metadata: Seq<u8>) -> DavItemView {
    DavItemView {
        path: "dandiset.yaml"@,
        created: None,
        modified: None,
        content_type: "text/yaml; charset=utf-8"@,
        size: byte_size(metadata.len()),
        etag: None,
        kind: ResourceKind::VersionMetadata,
        content: DavContentView::Blob(metadata),
        metadata_url: None,
    }
}

/// The root with its two children: the Dandiset index and the Zarr index.
pub open spec fn root_with_children() -> DavResourceWithChildrenView {
    DavResourceWithChildrenView::Collection {
        col: root_collection(),
        children: seq![
            DavResourceView::Collection(dandiset_index_collection()),
            DavResourceView::Collection(zarr_index_collection()),
        ],
    }
}

impl DavCollection {
    /// The root of the hierarchy.
    pub fn root() -> (col: DavCollection)
        ensures
            col@ == root_collection(),
    {
        DavCollection {
            path: None,
            created: None,
            modified: None,
            size: None,
            kind: ResourceKind::Root,
            metadata_url: None,
        }
    }

    /// A collection that has an address only.
    fn synthetic(path: PureDirPath, kind: ResourceKind) -> (col: DavCollection)
        ensures
            col@ == synthetic_collection(path@, kind),
    {
        DavCollection {
            path: Some(path),
            created: None,
            modified: None,
            size: None,
            kind,
            metadata_url: None,
        }
    }

    /// The list of all Dandisets.
    pub fn dandiset_index() -> (col: DavCollection)
        ensures
            col@ == dandiset_index_collection(),
    {
        proof {
            lemma_dandisets_component();
        }
        let name = Component::from_valid("dandisets".to_owned());
        DavCollection::synthetic(PureDirPath::from_component(name), ResourceKind::DandisetIndex)
    }

    /// The top of the Zarr manifest tree.
    pub fn zarr_index() -> (col: DavCollection)
        ensures
            col@ == zarr_index_collection(),
    {
        proof {
            lemma_zarrs_component();
        }
        let name = Component::from_valid("zarrs".to_owned());
        DavCollection::synthetic(PureDirPath::from_component(name), ResourceKind::ZarrIndex)
    }

    /// The list of the published versions of the Dandiset `dandiset_id`.
    pub fn dandiset_releases(dandiset_id: &DandisetId) -> (col: DavCollection)
        ensures
            col@ == releases_collection(dandiset_id@),
    {
        proof {
            lemma_releases_component();
        }
        let name = Component::from_valid("releases".to_owned());
        let path = dandiset_path(dandiset_id).join_one_dir(&name);
        DavCollection::synthetic(path, ResourceKind::DandisetReleases)
    }

    /// The version `v` as a collection at `path`.
    pub fn dandiset_version(v: DandisetVersion, path: PureDirPath) -> (col: DavCollection)
        ensures
            col@ == version_collection(v@, path@),
    {
        DavCollection {
            path: Some(path),
            created: Some(v.created),
            modified: Some(v.modified),
            size: Some(v.size),
            kind: ResourceKind::Version,
            metadata_url: Some(v.metadata_url),
        }
    }

    /// The Dandiset `ds` as a collection.
    pub fn from_dandiset(ds: Dandiset) -> (col: DavCollection)
        ensures
            col@ == dandiset_collection(ds@),
    {
        DavCollection::of_dandiset(&ds)
    }

    /// The Dandiset `ds` as a collection.
    pub fn of_dandiset(ds: &Dandiset) -> (col: DavCollection)
        ensures
            col@ == dandiset_collection(ds@),
    {
        DavCollection {
            path: Some(dandiset_path(&ds.identifier)),
            created: Some(ds.created),
            modified: Some(ds.modified),
            size: None,
            kind: ResourceKind::Dandiset,
            metadata_url: None,
        }
    }
}

/// The address of the Dandiset `dandiset_id`.
pub fn dandiset_path(dandiset_id: &DandisetId) -> (p: PureDirPath)
    ensures
        p@ == dandiset_path_text(dandiset_id@),
{
    proof {
        lemma_dandisets_component();
    }
    let top = PureDirPath::from_component(Component::from_valid("dandisets".to_owned()));
    top.join_one_dir(&dandiset_id.to_component())
}

impl DavItem {
    /// The metadata of a version as the item `dandiset.yaml`.
    pub fn from_metadata(metadata: Vec<u8>) -> (item: DavItem)
        ensures
            item@ == dandiset_yaml_item(metadata@),
    {
        proof {
            lemma_dandiset_yaml_component();
        }
        let name = Component::from_valid("dandiset.yaml".to_owned());
        let len = metadata.len();
        let size: Option<i64> = if len as u64 <= 0x7fff_ffff_ffff_ffffu64 {
            Some(len as i64)
        } else {
            None
        };
        DavItem {
            path: PurePath::from_component(name),
            created: None,
            modified: None,
            content_type: "text/yaml; charset=utf-8".to_owned(),
            size,
            etag: None,
            kind: ResourceKind::VersionMetadata,
            content: DavContent::Blob(metadata),
            metadata_url: None,
        }
    }
}

impl DavResource {
    /// The root of the hierarchy.
    pub fn root() -> (r: DavResource)
        ensures
            r@ == DavResourceView::Collection(root_collection()),
    {
        DavResource::Collection(DavCollection::root())
    }
}

impl DavResourceWithChildren {
    /// The root of the hierarchy with its children.
    pub fn root() -> (r: DavResourceWithChildren)
        ensures
            r@ == root_with_children(),
    {
        let mut children: Vec<DavResource> = Vec::new();
        children.push(DavResource::Collection(DavCollection::dandiset_index()));
        children.push(DavResource::Collection(DavCollection::zarr_index()));
        assert(resource_views(children@) =~= seq![
            DavResourceView::Collection(dandiset_index_collection()),
            DavResourceView::Collection(zarr_index_collection()),
        ]);
        DavResourceWithChildren::Collection { col: DavCollection::root(), children }
    }
}

} // verus!
