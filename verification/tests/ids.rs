use dandidav::dav::util::{eq_ignore_ascii_case, to_ascii_upper};
use dandidav::dav::{
    version_path, DandisetId, ParseDandisetIdError, ParsePublishedVersionIdError,
    PublishedVersionId, VersionSpec,
};
use dandidav::paths::Component;

#[test]
fn dandiset_ids_are_six_digits() {
    for s in ["000001", "123456", "999999", "000000"] {
        let id = s.parse::<DandisetId>().unwrap();
        assert_eq!(id.as_str(), s);
        assert_eq!(id.to_component().as_str(), s);
        assert_eq!(id.clone(), id);
    }
    for s in ["", "1", "00001", "0000001", "00000a", "00000 ", " 00001", "００００００", "0000-1", "00.001"] {
        assert_eq!(DandisetId::parse(s).unwrap_err(), ParseDandisetIdError, "{s:?}");
    }
}

#[test]
fn published_version_ids_are_three_runs_of_digits() {
    for s in ["0.210831.2033", "1.2.3", "000.0.000", "10.20.30"] {
        let id = s.parse::<PublishedVersionId>().unwrap();
        assert_eq!(id.as_str(), s);
        assert_eq!(id.to_component().as_str(), s);
    }
    for s in [
        "", ".", "..", "1", "1.2", "1.2.", ".1.2", "1..2", "1.2.3.4", "1.2.3.", "a.b.c", "1.2.x",
        "1,2,3", "1.2.3 ", " 1.2.3", "draft", "-1.2.3", "1.2.-3",
    ] {
        assert_eq!(
            PublishedVersionId::parse(s).unwrap_err(),
            ParsePublishedVersionIdError,
            "{s:?}"
        );
    }
}

#[test]
fn version_selectors() {
    let of = |s: &str| VersionSpec::from_component(&s.parse::<Component>().unwrap());
    assert!(matches!(of("draft"), Some(VersionSpec::Draft)));
    assert!(matches!(of("latest"), Some(VersionSpec::Latest)));
    assert!(matches!(of("0.1.2"), Some(VersionSpec::Published(v)) if v.as_str() == "0.1.2"));
    for s in ["Draft", "LATEST", "releases", "0.1", "draft ", "x"] {
        assert!(of(s).is_none(), "{s:?}");
    }
    assert_eq!(VersionSpec::Draft.to_component().as_str(), "draft");
    assert_eq!(VersionSpec::Latest.to_component().as_str(), "latest");
    assert_eq!(VersionSpec::Published("0.1.2".parse().unwrap()).to_component().as_str(), "0.1.2");
}

#[test]
fn version_paths() {
    let id = "000027".parse::<DandisetId>().unwrap();
    assert_eq!(version_path(&id, &VersionSpec::Draft).as_str(), "dandisets/000027/draft/");
    assert_eq!(version_path(&id, &VersionSpec::Latest).as_str(), "dandisets/000027/latest/");
    assert_eq!(
        version_path(&id, &VersionSpec::Published("0.210831.2033".parse().unwrap())).as_str(),
        "dandisets/000027/0.210831.2033/"
    );
}

#[test]
fn ascii_case() {
    assert_eq!(to_ascii_upper('a'), 'A');
    assert_eq!(to_ascii_upper('z'), 'Z');
    assert_eq!(to_ascii_upper('m'), 'M');
    assert_eq!(to_ascii_upper('A'), 'A');
    assert_eq!(to_ascii_upper('0'), '0');
    assert_eq!(to_ascii_upper('`'), '`');
    assert_eq!(to_ascii_upper('{'), '{');
    assert_eq!(to_ascii_upper('é'), 'é');
    assert!(eq_ignore_ascii_case("PROPFIND", "propfind"));
    assert!(eq_ignore_ascii_case("PropFind", "PROPFIND"));
    assert!(eq_ignore_ascii_case("", ""));
    assert!(!eq_ignore_ascii_case("PROPFIND", "PROPFIND "));
    assert!(!eq_ignore_ascii_case("PROPFINE", "PROPFIND"));
    assert!(!eq_ignore_ascii_case("é", "É"));
}
