use dandidav::paths::{
    Component, ParseComponentError, ParsePurePathError, PureDirPath, PurePath,
};

fn path(s: &str) -> PurePath {
    s.parse::<PurePath>().unwrap()
}

#[test]
fn components_are_checked() {
    for s in ["foo", "foo.nwb", "...", ".foo", "..foo", "a b", "sub-01", "日本語"] {
        let c = s.parse::<Component>().unwrap();
        assert_eq!(c.as_str(), s);
        assert_eq!(c.to_string(), s);
    }
    assert_eq!(Component::parse("").unwrap_err(), ParseComponentError::Empty);
    assert_eq!(Component::parse("a\0b").unwrap_err(), ParseComponentError::Nul);
    assert_eq!(Component::parse("a/\0").unwrap_err(), ParseComponentError::Nul);
    assert_eq!(Component::parse("a/b").unwrap_err(), ParseComponentError::Slash);
    assert_eq!(Component::parse("/").unwrap_err(), ParseComponentError::Slash);
    assert_eq!(Component::parse(".").unwrap_err(), ParseComponentError::SpecialDir);
    assert_eq!(Component::parse("..").unwrap_err(), ParseComponentError::SpecialDir);
}

#[test]
fn good_pure_paths_round_trip() {
    for s in ["foo", "foo.nwb", "foo/bar.nwb", "a/b/c", ".../..a/b..", "sub-01/sub-01.nwb"] {
        let p = s.parse::<PurePath>().unwrap();
        assert_eq!(p.as_str(), s);
        assert_eq!(p.to_string(), s);
    }
}

#[test]
fn pure_path_error_kinds() {
    assert_eq!(PurePath::parse("").unwrap_err(), ParsePurePathError::NotFile);
    assert_eq!(PurePath::parse("a\0").unwrap_err(), ParsePurePathError::Nul);
    assert_eq!(PurePath::parse("/a\0/").unwrap_err(), ParsePurePathError::Nul);
    assert_eq!(PurePath::parse("/").unwrap_err(), ParsePurePathError::StartsWithSlash);
    assert_eq!(PurePath::parse("/foo").unwrap_err(), ParsePurePathError::StartsWithSlash);
    assert_eq!(PurePath::parse("/foo/").unwrap_err(), ParsePurePathError::StartsWithSlash);
    assert_eq!(PurePath::parse("foo/").unwrap_err(), ParsePurePathError::NotFile);
    assert_eq!(PurePath::parse("foo//").unwrap_err(), ParsePurePathError::NotFile);
    assert_eq!(PurePath::parse("foo//bar").unwrap_err(), ParsePurePathError::NotNormalized);
    assert_eq!(PurePath::parse("foo/./bar").unwrap_err(), ParsePurePathError::NotNormalized);
    assert_eq!(PurePath::parse("foo/../bar").unwrap_err(), ParsePurePathError::NotNormalized);
    assert_eq!(PurePath::parse(".").unwrap_err(), ParsePurePathError::NotNormalized);
    assert_eq!(PurePath::parse("..").unwrap_err(), ParsePurePathError::NotNormalized);
    assert_eq!(PurePath::parse("foo/..").unwrap_err(), ParsePurePathError::NotNormalized);
}

#[test]
fn pure_path_name_and_parent() {
    let p = path("foo/bar/baz.txt");
    assert_eq!(p.name_str(), "baz.txt");
    assert_eq!(p.name().as_str(), "baz.txt");
    assert_eq!(p.parent().unwrap().as_str(), "foo/bar/");
    assert_eq!(path("baz.txt").name_str(), "baz.txt");
    assert!(path("baz.txt").parent().is_none());
}

#[test]
fn pure_path_from_components() {
    let parts: Vec<Component> =
        ["a", "bb", "ccc"].iter().map(|s| s.parse::<Component>().unwrap()).collect();
    assert_eq!(PurePath::from_components(&parts).unwrap().as_str(), "a/bb/ccc");
    assert_eq!(PurePath::from_components(&parts[..1]).unwrap().as_str(), "a");
    assert!(PurePath::from_components(&[]).is_none());
    assert_eq!(PurePath::from_component("x".parse().unwrap()).as_str(), "x");
}

#[test]
fn pure_path_to_dir_path_and_relative_to() {
    let p = path("foo/bar/baz");
    assert_eq!(p.to_dir_path().as_str(), "foo/bar/baz/");
    let base = "foo/".parse::<PureDirPath>().unwrap();
    assert_eq!(p.relative_to(&base).unwrap().as_str(), "bar/baz");
    assert_eq!(base.join(&p.relative_to(&base).unwrap()).as_str(), "foo/bar/baz");
    assert!(p.relative_to(&"fo/".parse().unwrap()).is_none());
    assert!(p.relative_to(&"foo/bar/baz/".parse().unwrap()).is_none());
    assert!(p.relative_to(&"bar/".parse().unwrap()).is_none());
}
