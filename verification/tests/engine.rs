use dandidav::dav::engine::{
    get_resource, get_resource_with_children, BackendCall, BackendReply, Step,
};
use dandidav::dav::{
    split_uri_path, BackendError, Dandiset, DandisetVersion, DavCollection, DavContent, DavError,
    DavItem, DavPath, DavResource, DavResourceWithChildren, PublishedVersionId, ResourceKind,
    Timestamp, VersionId,
};
use dandidav::paths::{PureDirPath, PurePath};

fn route(s: &str) -> DavPath {
    DavPath::from_components(split_uri_path(s).unwrap()).unwrap()
}

fn at(stamp: i64) -> Timestamp {
    Timestamp::new(2024, 1, 1, 0, (stamp / 60) as u8, (stamp % 60) as u8).unwrap()
}

fn version(id: VersionId, stamp: i64) -> DandisetVersion {
    DandisetVersion {
        version: id,
        size: 1000 + stamp,
        created: at(stamp),
        modified: at(stamp + 1),
        metadata_url: format!("https://archive.test/meta/{stamp}"),
    }
}

fn published(id: &str, stamp: i64) -> DandisetVersion {
    version(VersionId::Published(id.parse::<PublishedVersionId>().unwrap()), stamp)
}

fn dandiset(id: &str, latest: Option<DandisetVersion>) -> Dandiset {
    Dandiset {
        identifier: id.parse().unwrap(),
        created: at(10),
        modified: at(20),
        draft_version: version(VersionId::Draft, 30),
        most_recent_published_version: latest,
    }
}

fn folder(path: &str) -> DavResource {
    DavResource::Collection(DavCollection {
        path: Some(path.parse::<PureDirPath>().unwrap()),
        created: None,
        modified: None,
        size: None,
        kind: ResourceKind::Directory,
        metadata_url: None,
    })
}

fn file(path: &str) -> DavResource {
    DavResource::Item(DavItem {
        path: path.parse::<PurePath>().unwrap(),
        created: Some(at(1)),
        modified: Some(at(2)),
        content_type: "application/x-nwb".to_owned(),
        size: Some(42),
        etag: Some("abc".to_owned()),
        kind: ResourceKind::Blob,
        content: DavContent::Missing,
        metadata_url: None,
    })
}

fn address(r: &DavResource) -> String {
    match r {
        DavResource::Collection(col) => match &col.path {
            Some(p) => p.to_string(),
            None => String::new(),
        },
        DavResource::Item(item) => item.path.to_string(),
    }
}

fn call_of<T: std::fmt::Debug>(step: Step<T>) -> BackendCall {
    match step {
        Step::Call(c) => c,
        other => panic!("expected a call, got {other:?}"),
    }
}

fn done<T: std::fmt::Debug>(step: Step<T>) -> T {
    match step {
        Step::Done(Ok(r)) => r,
        other => panic!("expected a resource, got {other:?}"),
    }
}

fn failed<T: std::fmt::Debug>(step: Step<T>) -> DavError {
    match step {
        Step::Done(Err(e)) => e,
        other => panic!("expected an error, got {other:?}"),
    }
}

fn listing(r: DavResourceWithChildren) -> (DavCollection, Vec<DavResource>) {
    match r {
        DavResourceWithChildren::Collection { col, children } => (col, children),
        other => panic!("expected a collection, got {other:?}"),
    }
}

#[test]
fn root_needs_no_call() {
    let mut replies = Vec::new();
    let r = done(get_resource(&DavPath::Root, &mut replies));
    assert!(matches!(r, DavResource::Collection(DavCollection { path: None, kind: ResourceKind::Root, .. })));
    let (col, children) = listing(done(get_resource_with_children(&DavPath::Root, &mut replies)));
    assert!(col.path.is_none());
    let names: Vec<String> = children.iter().map(address).collect();
    assert_eq!(names, vec!["dandisets/", "zarrs/"]);
}

#[test]
fn dandiset_index_lists_all_dandisets_in_order() {
    let path = route("/dandisets/");
    let mut replies = Vec::new();
    let r = done(get_resource(&path, &mut replies));
    assert_eq!(address(&r), "dandisets/");
    assert!(matches!(
        call_of(get_resource_with_children(&path, &mut replies)),
        BackendCall::GetAllDandisets
    ));
    replies.push(BackendReply::Dandisets(vec![
        dandiset("000003", None),
        dandiset("000001", None),
        dandiset("000002", None),
    ]));
    let (col, children) = listing(done(get_resource_with_children(&path, &mut replies)));
    assert!(replies.is_empty());
    assert_eq!(col.path.unwrap().as_str(), "dandisets/");
    let names: Vec<String> = children.iter().map(address).collect();
    assert_eq!(names, vec!["dandisets/000003/", "dandisets/000001/", "dandisets/000002/"]);
}

#[test]
fn unpublished_dandiset_has_only_a_draft() {
    let path = route("dandisets/000001");
    let mut replies = Vec::new();
    match call_of(get_resource_with_children(&path, &mut replies)) {
        BackendCall::GetDandiset { dandiset_id } => assert_eq!(dandiset_id.as_str(), "000001"),
        other => panic!("unexpected call {other:?}"),
    }
    replies.push(BackendReply::Dandiset(dandiset("000001", None)));
    let (col, children) = listing(done(get_resource_with_children(&path, &mut replies)));
    assert_eq!(col.path.unwrap().as_str(), "dandisets/000001/");
    assert_eq!(col.created, Some(at(10)));
    assert_eq!(col.modified, Some(at(20)));
    assert_eq!(col.size, None);
    let names: Vec<String> = children.iter().map(address).collect();
    assert_eq!(names, vec!["dandisets/000001/draft/"]);
}

#[test]
fn published_dandiset_has_draft_latest_releases() {
    let path = route("dandisets/000001");
    let mut replies = vec![BackendReply::Dandiset(dandiset(
        "000001",
        Some(published("0.210831.2033", 50)),
    ))];
    let (_, children) = listing(done(get_resource_with_children(&path, &mut replies)));
    let names: Vec<String> = children.iter().map(address).collect();
    assert_eq!(
        names,
        vec!["dandisets/000001/draft/", "dandisets/000001/latest/", "dandisets/000001/releases/"]
    );
    match &children[1] {
        DavResource::Collection(col) => {
            assert_eq!(col.created, Some(at(50)));
            assert_eq!(col.modified, Some(at(51)));
            assert_eq!(col.size, Some(1050));
            assert_eq!(col.metadata_url.as_deref(), Some("https://archive.test/meta/50"));
        }
        other => panic!("unexpected child {other:?}"),
    }
}

#[test]
fn releases_keep_only_published_versions() {
    let path = route("dandisets/000001/releases");
    let mut replies = Vec::new();
    let r = done(get_resource(&path, &mut replies));
    assert_eq!(address(&r), "dandisets/000001/releases/");
    assert!(matches!(
        call_of(get_resource_with_children(&path, &mut replies)),
        BackendCall::GetAllVersions { .. }
    ));
    replies.push(BackendReply::Versions(vec![
        published("0.210831.2033", 1),
        version(VersionId::Draft, 2),
        published("0.220101.0001", 3),
        version(VersionId::Draft, 4),
    ]));
    let (col, children) = listing(done(get_resource_with_children(&path, &mut replies)));
    assert_eq!(col.path.unwrap().as_str(), "dandisets/000001/releases/");
    let names: Vec<String> = children.iter().map(address).collect();
    assert_eq!(names, vec!["dandisets/000001/0.210831.2033/", "dandisets/000001/0.220101.0001/"]);
}

#[test]
fn releases_of_an_unpublished_dandiset_are_empty() {
    let path = route("dandisets/000001/releases");
    let mut replies = vec![BackendReply::Versions(vec![version(VersionId::Draft, 2)])];
    let (_, children) = listing(done(get_resource_with_children(&path, &mut replies)));
    assert!(children.is_empty());
}

#[test]
fn latest_without_published_version_is_not_found() {
    let path = route("dandisets/000001/latest");
    let mut replies = Vec::new();
    match call_of(get_resource_with_children(&path, &mut replies)) {
        BackendCall::GetDandiset { dandiset_id } => assert_eq!(dandiset_id.as_str(), "000001"),
        other => panic!("unexpected call {other:?}"),
    }
    replies.push(BackendReply::Dandiset(dandiset("000001", None)));
    let e = failed(get_resource_with_children(&path, &mut replies));
    assert!(replies.is_empty());
    assert!(e.is_404());
    match e {
        DavError::NoLatestVersion { dandiset_id } => assert_eq!(dandiset_id.as_str(), "000001"),
        other => panic!("unexpected error {other:?}"),
    }
    let mut replies = vec![BackendReply::Dandiset(dandiset("000001", None))];
    let e = failed(get_resource(&path, &mut replies));
    assert!(matches!(e, DavError::NoLatestVersion { .. }));
}

fn list_version(path: &DavPath, mut replies: Vec<BackendReply>) -> (DavCollection, Vec<DavResource>) {
    match call_of(get_resource_with_children(path, &mut replies)) {
        BackendCall::GetVersion { dandiset_id, version } => {
            assert_eq!(dandiset_id.as_str(), "000001");
            match version {
                VersionId::Published(v) => assert_eq!(v.as_str(), "0.210831.2033"),
                other => panic!("unexpected version {other:?}"),
            }
        }
        other => panic!("unexpected call {other:?}"),
    }
    replies.push(BackendReply::Version(published("0.210831.2033", 50)));
    assert!(matches!(
        call_of(get_resource_with_children(path, &mut replies)),
        BackendCall::GetRootChildren { .. }
    ));
    replies.push(BackendReply::Resources(vec![folder("sub-01/"), file("README.md")]));
    assert!(matches!(
        call_of(get_resource_with_children(path, &mut replies)),
        BackendCall::GetVersionMetadata { .. }
    ));
    replies.push(BackendReply::Metadata(b"name: test\n".to_vec()));
    listing(done(get_resource_with_children(path, &mut replies)))
}

#[test]
fn latest_and_published_differ_only_in_address() {
    let latest = route("dandisets/000001/latest");
    let given = route("dandisets/000001/0.210831.2033");
    let mut replies = Vec::new();
    assert!(matches!(
        call_of(get_resource_with_children(&latest, &mut replies)),
        BackendCall::GetDandiset { .. }
    ));
    replies.push(BackendReply::Dandiset(dandiset("000001", Some(published("0.210831.2033", 50)))));
    let (col_l, children_l) = list_version(&latest, replies);
    let (col_p, children_p) = list_version(&given, Vec::new());
    assert_eq!(col_l.path.as_ref().unwrap().as_str(), "dandisets/000001/latest/");
    assert_eq!(col_p.path.as_ref().unwrap().as_str(), "dandisets/000001/0.210831.2033/");
    assert_eq!(col_l.created, col_p.created);
    assert_eq!(col_l.size, col_p.size);
    let names_l: Vec<String> = children_l.iter().map(address).collect();
    let names_p: Vec<String> = children_p.iter().map(address).collect();
    assert_eq!(
        names_l,
        vec![
            "dandisets/000001/latest/sub-01/",
            "dandisets/000001/latest/README.md",
            "dandisets/000001/latest/dandiset.yaml"
        ]
    );
    assert_eq!(
        names_p,
        vec![
            "dandisets/000001/0.210831.2033/sub-01/",
            "dandisets/000001/0.210831.2033/README.md",
            "dandisets/000001/0.210831.2033/dandiset.yaml"
        ]
    );
    match (&children_l[2], &children_p[2]) {
        (DavResource::Item(a), DavResource::Item(b)) => {
            assert_eq!(a.content_type, "text/yaml; charset=utf-8");
            assert_eq!(a.size, Some(11));
            assert_eq!(b.size, Some(11));
            assert!(matches!(&a.content, DavContent::Blob(bytes) if bytes == b"name: test\n"));
            assert!(matches!(&b.content, DavContent::Blob(bytes) if bytes == b"name: test\n"));
        }
        other => panic!("unexpected children {other:?}"),
    }
}

#[test]
fn version_without_children_takes_one_call() {
    let path = route("dandisets/000001/draft");
    let mut replies = Vec::new();
    match call_of(get_resource(&path, &mut replies)) {
        BackendCall::GetVersion { version, .. } => assert!(matches!(version, VersionId::Draft)),
        other => panic!("unexpected call {other:?}"),
    }
    replies.push(BackendReply::Version(version(VersionId::Draft, 30)));
    let r = done(get_resource(&path, &mut replies));
    assert_eq!(address(&r), "dandisets/000001/draft/");
}

#[test]
fn dandiset_yaml_is_an_item_under_the_version() {
    let path = route("dandisets/000001/draft/dandiset.yaml");
    let mut replies = Vec::new();
    assert!(matches!(
        call_of(get_resource(&path, &mut replies)),
        BackendCall::GetVersionMetadata { .. }
    ));
    replies.push(BackendReply::Metadata(vec![1, 2, 3]));
    let r = done(get_resource(&path, &mut replies));
    assert_eq!(address(&r), "dandisets/000001/draft/dandiset.yaml");
    let mut replies = vec![BackendReply::Metadata(vec![1, 2, 3])];
    match done(get_resource_with_children(&path, &mut replies)) {
        DavResourceWithChildren::Item(item) => {
            assert_eq!(item.path.as_str(), "dandisets/000001/draft/dandiset.yaml");
            assert_eq!(item.size, Some(3));
        }
        other => panic!("unexpected resource {other:?}"),
    }
}

#[test]
fn resource_in_version_is_addressed_under_the_alias() {
    let path = route("dandisets/000001/latest/sub-01/sub-01.nwb");
    let mut replies =
        vec![BackendReply::Dandiset(dandiset("000001", Some(published("0.210831.2033", 5))))];
    match call_of(get_resource(&path, &mut replies)) {
        BackendCall::GetResource { dandiset_id, version, path } => {
            assert_eq!(dandiset_id.as_str(), "000001");
            assert!(matches!(version, VersionId::Published(v) if v.as_str() == "0.210831.2033"));
            assert_eq!(path.as_str(), "sub-01/sub-01.nwb");
        }
        other => panic!("unexpected call {other:?}"),
    }
    assert_eq!(replies.len(), 1);
    replies.push(BackendReply::Resource(file("sub-01/sub-01.nwb")));
    let r = done(get_resource(&path, &mut replies));
    assert_eq!(address(&r), "dandisets/000001/latest/sub-01/sub-01.nwb");

    let mut replies =
        vec![BackendReply::Dandiset(dandiset("000001", Some(published("0.210831.2033", 5))))];
    assert!(matches!(
        call_of(get_resource_with_children(&path, &mut replies)),
        BackendCall::GetResourceWithChildren { .. }
    ));
    replies.push(BackendReply::ResourceWithChildren(DavResourceWithChildren::Collection {
        col: DavCollection {
            path: Some("sub-01/".parse().unwrap()),
            created: None,
            modified: None,
            size: None,
            kind: ResourceKind::Directory,
            metadata_url: None,
        },
        children: vec![file("sub-01/a.nwb"), folder("sub-01/deep/")],
    }));
    let (col, children) = listing(done(get_resource_with_children(&path, &mut replies)));
    assert_eq!(col.path.unwrap().as_str(), "dandisets/000001/latest/sub-01/");
    let names: Vec<String> = children.iter().map(address).collect();
    assert_eq!(
        names,
        vec!["dandisets/000001/latest/sub-01/a.nwb", "dandisets/000001/latest/sub-01/deep/"]
    );
}

#[test]
fn zarr_paths_pass_through() {
    let index = route("zarrs");
    let mut replies = Vec::new();
    assert_eq!(address(&done(get_resource(&index, &mut replies))), "zarrs/");
    assert!(matches!(
        call_of(get_resource_with_children(&index, &mut replies)),
        BackendCall::GetZarrTopLevelDirs
    ));
    replies.push(BackendReply::Resources(vec![folder("zarrs/001/"), folder("zarrs/002/")]));
    let (col, children) = listing(done(get_resource_with_children(&index, &mut replies)));
    assert_eq!(col.path.unwrap().as_str(), "zarrs/");
    let names: Vec<String> = children.iter().map(address).collect();
    assert_eq!(names, vec!["zarrs/001/", "zarrs/002/"]);

    let path = route("zarrs/001/abc.zarr");
    let mut replies = Vec::new();
    match call_of(get_resource(&path, &mut replies)) {
        BackendCall::GetZarrResource { path } => assert_eq!(path.as_str(), "001/abc.zarr"),
        other => panic!("unexpected call {other:?}"),
    }
    replies.push(BackendReply::Resource(folder("zarrs/001/abc.zarr/")));
    assert_eq!(address(&done(get_resource(&path, &mut replies))), "zarrs/001/abc.zarr/");
    let mut replies = Vec::new();
    assert!(matches!(
        call_of(get_resource_with_children(&path, &mut replies)),
        BackendCall::GetZarrResourceWithChildren { .. }
    ));
}

#[test]
fn backend_failures_end_resolution() {
    let path = route("dandisets/000001");
    let mut replies = vec![BackendReply::Failed(BackendError {
        not_found: true,
        detail: "no such Dandiset".to_owned(),
    })];
    let e = failed(get_resource(&path, &mut replies));
    assert!(e.is_404());
    assert!(matches!(e, DavError::Dandi(BackendError { not_found: true, .. })));

    let path = route("zarrs/001");
    let mut replies = vec![BackendReply::Failed(BackendError {
        not_found: false,
        detail: "connection reset".to_owned(),
    })];
    let e = failed(get_resource_with_children(&path, &mut replies));
    assert!(!e.is_404());
    match e {
        DavError::ZarrMan(b) => assert_eq!(b.detail, "connection reset"),
        other => panic!("unexpected error {other:?}"),
    }

    let path = route("dandisets/000001/draft");
    let mut replies = vec![
        BackendReply::Version(version(VersionId::Draft, 30)),
        BackendReply::Failed(BackendError { not_found: false, detail: "boom".to_owned() }),
    ];
    let e = failed(get_resource_with_children(&path, &mut replies));
    assert!(matches!(e, DavError::Dandi(BackendError { not_found: false, .. })));
    assert!(replies.is_empty());
}

#[test]
fn answer_of_the_wrong_sort_is_an_internal_failure() {
    let path = route("dandisets/000001");
    let mut replies = vec![BackendReply::Metadata(vec![])];
    let e = failed(get_resource(&path, &mut replies));
    assert!(!e.is_404());
    assert!(matches!(e, DavError::Dandi(_)));
}

#[test]
fn error_classes() {
    let id = "000001".parse().unwrap();
    assert!(DavError::NoLatestVersion { dandiset_id: id }.is_404());
    assert!(!DavError::Template("bad template".to_owned()).is_404());
    assert!(!DavError::Xml("bad xml".to_owned()).is_404());
    assert!(DavError::ZarrMan(BackendError { not_found: true, detail: String::new() }).is_404());
    assert!(!DavError::ZarrMan(BackendError { not_found: false, detail: String::new() }).is_404());
    assert!(!DavError::Dandi(BackendError { not_found: false, detail: String::new() }).is_404());
}
