use dandidav::dav::{
    Dandiset, DandisetVersion, DavCollection, DavContent, DavItem, DavResource,
    DavResourceWithChildren, Redirect, ResourceKind, Timestamp, VersionId, VersionSpec,
};
use dandidav::paths::PureDirPath;

fn at(second: u8) -> Timestamp {
    Timestamp::new(2024, 5, 6, 7, 8, second).unwrap()
}

fn folder(path: &str) -> DavCollection {
    DavCollection {
        path: Some(path.parse().unwrap()),
        created: Some(at(1)),
        modified: Some(at(2)),
        size: Some(7),
        kind: ResourceKind::Directory,
        metadata_url: Some("https://archive.test/m".to_owned()),
    }
}

fn file(path: &str) -> DavItem {
    DavItem {
        path: path.parse().unwrap(),
        created: Some(at(3)),
        modified: Some(at(4)),
        content_type: "text/plain".to_owned(),
        size: Some(5),
        etag: Some("e".to_owned()),
        kind: ResourceKind::Blob,
        content: DavContent::Blob(vec![9, 8, 7]),
        metadata_url: Some("https://archive.test/i".to_owned()),
    }
}

#[test]
fn synthetic_collections() {
    let root = DavCollection::root();
    assert!(root.path.is_none());
    assert_eq!(root.kind, ResourceKind::Root);
    assert!(root.created.is_none() && root.modified.is_none() && root.size.is_none());
    let index = DavCollection::dandiset_index();
    assert_eq!(index.path.unwrap().as_str(), "dandisets/");
    assert_eq!(index.kind, ResourceKind::DandisetIndex);
    let zarrs = DavCollection::zarr_index();
    assert_eq!(zarrs.path.unwrap().as_str(), "zarrs/");
    assert_eq!(zarrs.kind, ResourceKind::ZarrIndex);
    let releases = DavCollection::dandiset_releases(&"000005".parse().unwrap());
    assert_eq!(releases.path.unwrap().as_str(), "dandisets/000005/releases/");
    assert_eq!(releases.kind, ResourceKind::DandisetReleases);
}

#[test]
fn collections_of_the_archive() {
    let version = DandisetVersion {
        version: VersionId::Draft,
        size: 123,
        created: at(10),
        modified: at(11),
        metadata_url: "https://archive.test/v".to_owned(),
    };
    let col = DavCollection::dandiset_version(version, "some/where/".parse().unwrap());
    assert_eq!(col.path.unwrap().as_str(), "some/where/");
    assert_eq!(col.created, Some(at(10)));
    assert_eq!(col.modified, Some(at(11)));
    assert_eq!(col.size, Some(123));
    assert_eq!(col.kind, ResourceKind::Version);
    assert_eq!(col.metadata_url.as_deref(), Some("https://archive.test/v"));

    let ds = Dandiset {
        identifier: "000042".parse().unwrap(),
        created: at(20),
        modified: at(21),
        draft_version: DandisetVersion {
            version: VersionId::Draft,
            size: 1,
            created: at(22),
            modified: at(23),
            metadata_url: String::new(),
        },
        most_recent_published_version: None,
    };
    let col = DavCollection::from_dandiset(ds);
    assert_eq!(col.path.unwrap().as_str(), "dandisets/000042/");
    assert_eq!(col.created, Some(at(20)));
    assert_eq!(col.modified, Some(at(21)));
    assert_eq!(col.size, None);
    assert_eq!(col.kind, ResourceKind::Dandiset);
    assert!(col.metadata_url.is_none());
}

#[test]
fn metadata_item() {
    let item = DavItem::from_metadata(b"id: 1\n".to_vec());
    assert_eq!(item.path.as_str(), "dandiset.yaml");
    assert_eq!(item.content_type, "text/yaml; charset=utf-8");
    assert_eq!(item.size, Some(6));
    assert_eq!(item.kind, ResourceKind::VersionMetadata);
    assert!(matches!(&item.content, DavContent::Blob(b) if b == b"id: 1\n"));
    assert!(item.created.is_none() && item.modified.is_none() && item.etag.is_none());
    assert_eq!(DavItem::from_metadata(vec![]).size, Some(0));
}

#[test]
fn redirects() {
    let direct = Redirect::Direct("https://a.test/".to_owned());
    assert_eq!(direct.get_url(true), "https://a.test/");
    assert_eq!(direct.get_url(false), "https://a.test/");
    let alt = Redirect::Alt { s3: "https://s3.test/".to_owned(), archive: "https://b.test/".to_owned() };
    assert_eq!(alt.get_url(true), "https://s3.test/");
    assert_eq!(alt.get_url(false), "https://b.test/");
}

#[test]
fn rewriting_keeps_everything_but_the_address() {
    let id = "000001".parse().unwrap();
    let col = folder("a/b/").under_version_path(&id, &VersionSpec::Latest);
    assert_eq!(col.path.unwrap().as_str(), "dandisets/000001/latest/a/b/");
    assert_eq!(col.created, Some(at(1)));
    assert_eq!(col.modified, Some(at(2)));
    assert_eq!(col.size, Some(7));
    assert_eq!(col.kind, ResourceKind::Directory);
    assert_eq!(col.metadata_url.as_deref(), Some("https://archive.test/m"));

    let rootless = DavCollection::root().under_version_path(&id, &VersionSpec::Draft);
    assert_eq!(rootless.path.unwrap().as_str(), "dandisets/000001/draft/");

    let item = file("a/b.txt").under_version_path(&id, &VersionSpec::Draft);
    assert_eq!(item.path.as_str(), "dandisets/000001/draft/a/b.txt");
    assert_eq!(item.created, Some(at(3)));
    assert_eq!(item.modified, Some(at(4)));
    assert_eq!(item.content_type, "text/plain");
    assert_eq!(item.size, Some(5));
    assert_eq!(item.etag.as_deref(), Some("e"));
    assert_eq!(item.kind, ResourceKind::Blob);
    assert!(matches!(&item.content, DavContent::Blob(b) if b == &[9, 8, 7]));
    assert_eq!(item.metadata_url.as_deref(), Some("https://archive.test/i"));

    let prefix = "x/y/".parse::<PureDirPath>().unwrap();
    match DavResource::Item(file("f")).under_path(&prefix) {
        DavResource::Item(item) => assert_eq!(item.path.as_str(), "x/y/f"),
        other => panic!("unexpected resource {other:?}"),
    }
}

#[test]
fn rewriting_reaches_the_children() {
    let id = "000001".parse().unwrap();
    let version = VersionSpec::Published("0.1.2".parse().unwrap());
    let listing = DavResourceWithChildren::Collection {
        col: folder("a/"),
        children: vec![DavResource::Item(file("a/f")), DavResource::Collection(folder("a/d/"))],
    };
    match listing.under_version_path(&id, &version) {
        DavResourceWithChildren::Collection { col, children } => {
            assert_eq!(col.path.unwrap().as_str(), "dandisets/000001/0.1.2/a/");
            assert_eq!(children.len(), 2);
            match &children[0] {
                DavResource::Item(item) => {
                    assert_eq!(item.path.as_str(), "dandisets/000001/0.1.2/a/f")
                }
                other => panic!("unexpected child {other:?}"),
            }
            match &children[1] {
                DavResource::Collection(col) => {
                    assert_eq!(col.path.as_ref().unwrap().as_str(), "dandisets/000001/0.1.2/a/d/")
                }
                other => panic!("unexpected child {other:?}"),
            }
        }
        other => panic!("unexpected resource {other:?}"),
    }
    match DavResourceWithChildren::Item(file("a/f")).under_version_path(&id, &version) {
        DavResourceWithChildren::Item(item) => {
            assert_eq!(item.path.as_str(), "dandisets/000001/0.1.2/a/f")
        }
        other => panic!("unexpected resource {other:?}"),
    }
}

#[test]
fn flattening_puts_the_resource_first() {
    let listing = DavResourceWithChildren::Collection {
        col: folder("a/"),
        children: vec![DavResource::Item(file("a/f")), DavResource::Collection(folder("a/d/"))],
    };
    let names: Vec<Option<String>> =
        listing.into_vec().iter().map(|r| r.name().map(str::to_owned)).collect();
    assert_eq!(names, vec![Some("a".to_owned()), Some("f".to_owned()), Some("d".to_owned())]);
    let single = DavResourceWithChildren::Item(file("a/f")).into_vec();
    assert_eq!(single.len(), 1);
    assert_eq!(single[0].href(), "/a/f");
    assert_eq!(DavResource::root().name(), None);
    assert_eq!(DavResource::root().href(), "/");
    assert_eq!(DavResourceWithChildren::root().into_vec().len(), 3);
}
