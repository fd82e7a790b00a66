use dandidav::dav::{split_uri_path, DavPath, VersionSpec};
use dandidav::paths::Component;

fn parts(names: &[&str]) -> Vec<Component> {
    names.iter().map(|s| s.parse::<Component>().unwrap()).collect()
}

fn route(s: &str) -> Option<DavPath> {
    DavPath::from_components(split_uri_path(s)?)
}

#[test]
fn split_uri_path_drops_empty_pieces() {
    let texts = |s: &str| -> Option<Vec<String>> {
        split_uri_path(s).map(|v| v.iter().map(|c| c.to_string()).collect())
    };
    assert_eq!(texts(""), Some(vec![]));
    assert_eq!(texts("/"), Some(vec![]));
    assert_eq!(texts("/dandisets"), Some(vec!["dandisets".to_owned()]));
    assert_eq!(texts("/dandisets/"), Some(vec!["dandisets".to_owned()]));
    assert_eq!(
        texts("/dandisets//000001/draft/"),
        Some(vec!["dandisets".to_owned(), "000001".to_owned(), "draft".to_owned()])
    );
    assert_eq!(texts("a/b"), Some(vec!["a".to_owned(), "b".to_owned()]));
    assert_eq!(texts("/a/./b"), None);
    assert_eq!(texts("/a/../b"), None);
    assert_eq!(texts("/a/b\0c"), None);
    assert_eq!(texts("/.."), None);
    assert_eq!(texts("/.hidden/..."), Some(vec![".hidden".to_owned(), "...".to_owned()]));
}

#[test]
fn fixed_routes() {
    assert!(matches!(DavPath::from_components(vec![]), Some(DavPath::Root)));
    assert!(matches!(route("/"), Some(DavPath::Root)));
    assert!(matches!(route("/dandisets"), Some(DavPath::DandisetIndex)));
    assert!(matches!(route("/zarrs/"), Some(DavPath::ZarrIndex)));
    assert!(route("/other").is_none());
    assert!(route("/Dandisets").is_none());
    assert!(route("/dandisets.txt").is_none());
}

#[test]
fn dandiset_routes() {
    match route("/dandisets/000001") {
        Some(DavPath::Dandiset { dandiset_id }) => assert_eq!(dandiset_id.as_str(), "000001"),
        other => panic!("unexpected route {other:?}"),
    }
    match route("/dandisets/123456/releases/") {
        Some(DavPath::DandisetReleases { dandiset_id }) => {
            assert_eq!(dandiset_id.as_str(), "123456")
        }
        other => panic!("unexpected route {other:?}"),
    }
    assert!(route("/dandisets/1").is_none());
    assert!(route("/dandisets/0000001").is_none());
    assert!(route("/dandisets/00000a").is_none());
    assert!(route("/dandisets/00000a/draft").is_none());
    assert!(route("/dandisets/000001/releases/0.210831.2033").is_none());
    assert!(route("/dandisets/000001/other").is_none());
    assert!(route("/dandisets/000001/other/file").is_none());
}

#[test]
fn version_routes() {
    match route("/dandisets/000001/draft") {
        Some(DavPath::Version { dandiset_id, version }) => {
            assert_eq!(dandiset_id.as_str(), "000001");
            assert!(matches!(version, VersionSpec::Draft));
        }
        other => panic!("unexpected route {other:?}"),
    }
    assert!(matches!(
        route("/dandisets/000001/latest/"),
        Some(DavPath::Version { version: VersionSpec::Latest, .. })
    ));
    match route("/dandisets/000001/0.210831.2033") {
        Some(DavPath::Version { version: VersionSpec::Published(v), .. }) => {
            assert_eq!(v.as_str(), "0.210831.2033")
        }
        other => panic!("unexpected route {other:?}"),
    }
    for bad in ["0.210831", "0.210831.2033.1", "0..2033", ".1.2", "1.2.", "1.2.x", "v1.2.3", "1"] {
        assert!(route(&format!("/dandisets/000001/{bad}")).is_none(), "{bad}");
    }
    match route("/dandisets/000001/latest/dandiset.yaml") {
        Some(DavPath::DandisetYaml { dandiset_id, version }) => {
            assert_eq!(dandiset_id.as_str(), "000001");
            assert!(matches!(version, VersionSpec::Latest));
        }
        other => panic!("unexpected route {other:?}"),
    }
    match route("/dandisets/000001/draft/dandiset.yaml/more") {
        Some(DavPath::DandiResource { path, .. }) => assert_eq!(path.as_str(), "dandiset.yaml/more"),
        other => panic!("unexpected route {other:?}"),
    }
}

#[test]
fn resource_route_joins_the_rest() {
    let p = DavPath::from_components(parts(&["dandisets", "000001", "draft", "sub-01", "sub-01.nwb"]));
    match p {
        Some(DavPath::DandiResource { dandiset_id, version, path }) => {
            assert_eq!(dandiset_id.as_str(), "000001");
            assert!(matches!(version, VersionSpec::Draft));
            assert_eq!(path.as_str(), "sub-01/sub-01.nwb");
        }
        other => panic!("unexpected route {other:?}"),
    }
    match route("dandisets/000001/draft/sub-01/sub-01.nwb") {
        Some(DavPath::DandiResource { path, .. }) => assert_eq!(path.as_str(), "sub-01/sub-01.nwb"),
        other => panic!("unexpected route {other:?}"),
    }
    match route("/zarrs/001/abc/d.zarr/") {
        Some(DavPath::ZarrPath { path }) => assert_eq!(path.as_str(), "001/abc/d.zarr"),
        other => panic!("unexpected route {other:?}"),
    }
}
