use dandidav::paths::{Component, ParsePureDirPathError, PureDirPath, PurePath};

fn dir(s: &str) -> PureDirPath {
    s.parse::<PureDirPath>().unwrap()
}

#[test]
fn test_parent() {
    let p = "foo/bar/baz/".parse::<PureDirPath>().unwrap();
    match p.parent() {
        Some(pp) => {
            assert_eq!(pp, "foo/bar/");
        }
        None => panic!("foo/bar/baz/ should have a parent"),
    }
}

#[test]
fn test_noparent() {
    let p = "foo/".parse::<PureDirPath>().unwrap();
    assert!(matches!(p.parent(), None));
}

#[test]
fn good_dir_paths_round_trip() {
    for s in ["foo.nwb/", "foo/bar.nwb/", "a/b/c/", "sub-01/ses-02/"] {
        let p = s.parse::<PureDirPath>().unwrap();
        assert_eq!(p.as_str(), s);
        assert_eq!(p.to_string(), s);
    }
    assert_eq!(dir(".../").as_str(), ".../");
    assert_eq!(dir(".foo/..bar/").as_str(), ".foo/..bar/");
}

#[test]
fn bad_dir_paths_are_rejected() {
    for s in [
        "",
        "/",
        "/foo",
        "foo",
        "foo/bar.nwb",
        "/foo/",
        "foo//bar.nwb/",
        "foo///bar.nwb/",
        "foo/bar\0.nwb/",
        "foo/./bar.nwb/",
        "foo/../bar.nwb/",
        "./foo/bar.nwb/",
        "../foo/bar.nwb/",
        "foo/bar.nwb/.",
        "foo/bar.nwb/..",
        "foo/bar.nwb/./",
        "foo/bar.nwb/../",
    ] {
        assert!(s.parse::<PureDirPath>().is_err(), "{s:?} should be rejected");
    }
}

#[test]
fn dir_path_error_kinds() {
    assert_eq!(PureDirPath::parse("").unwrap_err(), ParsePureDirPathError::NotDir);
    assert_eq!(PureDirPath::parse("foo").unwrap_err(), ParsePureDirPathError::NotDir);
    assert_eq!(PureDirPath::parse("/").unwrap_err(), ParsePureDirPathError::StartsWithSlash);
    assert_eq!(PureDirPath::parse("/foo/").unwrap_err(), ParsePureDirPathError::StartsWithSlash);
    assert_eq!(PureDirPath::parse("foo/b\0r/").unwrap_err(), ParsePureDirPathError::Nul);
    assert_eq!(PureDirPath::parse("foo\0").unwrap_err(), ParsePureDirPathError::Nul);
    assert_eq!(PureDirPath::parse("/foo\0/").unwrap_err(), ParsePureDirPathError::Nul);
    assert_eq!(PureDirPath::parse("foo//bar/").unwrap_err(), ParsePureDirPathError::NotNormalized);
    assert_eq!(PureDirPath::parse("foo/./").unwrap_err(), ParsePureDirPathError::NotNormalized);
    assert_eq!(PureDirPath::parse("../foo/").unwrap_err(), ParsePureDirPathError::NotNormalized);
}

#[test]
fn dir_path_name() {
    assert_eq!(dir("foo/bar/baz/").name_str(), "baz");
    assert_eq!(dir("foo/").name_str(), "foo");
    assert_eq!(dir("foo/bar.nwb/").name().as_str(), "bar.nwb");
    assert_eq!(dir("héllo/wörld/").name_str(), "wörld");
}

#[test]
fn dir_path_parent_strips_one_segment() {
    let p = dir("a/bb/ccc/");
    let parent = p.parent().unwrap();
    assert_eq!(parent.as_str(), "a/bb/");
    assert_eq!(format!("{}{}/", parent.as_str(), p.name_str()), p.as_str());
    let grandparent = parent.parent().unwrap();
    assert_eq!(grandparent.as_str(), "a/");
    assert!(grandparent.parent().is_none());
    assert_eq!(dir("ä/ö/").parent().unwrap().as_str(), "ä/");
}

#[test]
fn dir_path_join() {
    let d = dir("foo/bar/");
    let f = "baz/quux.txt".parse::<PurePath>().unwrap();
    assert_eq!(d.join(&f).as_str(), "foo/bar/baz/quux.txt");
    assert_eq!(d.join_dir(&dir("x/y/")).as_str(), "foo/bar/x/y/");
    let c = "leaf".parse::<Component>().unwrap();
    assert_eq!(d.join_one_dir(&c).as_str(), "foo/bar/leaf/");
    assert_eq!(d.as_str(), "foo/bar/");
}

#[test]
fn dir_path_push() {
    let mut d = dir("foo/");
    d.push(&"bar".parse::<Component>().unwrap());
    assert_eq!(d.as_str(), "foo/bar/");
    d.push(&"baz".parse::<Component>().unwrap());
    assert_eq!(d.as_str(), "foo/bar/baz/");
}

#[test]
fn dir_path_relative_to() {
    let p = dir("foo/bar/baz/");
    assert!(p.relative_to(&p).is_none());
    assert!(p.relative_to(&dir("foo/bar/baz/quux/")).is_none());
    assert!(p.relative_to(&dir("bar/")).is_none());
    assert!(p.relative_to(&dir("fo/")).is_none());
    assert!(p.relative_to(&dir("foo/ba/")).is_none());
    let base = dir("foo/");
    let rel = p.relative_to(&base).unwrap();
    assert_eq!(rel.as_str(), "bar/baz/");
    assert_eq!(base.join_dir(&rel).as_str(), p.as_str());
    assert_eq!(p.relative_to(&dir("foo/bar/")).unwrap().as_str(), "baz/");
}

#[test]
fn dir_path_component_strs() {
    assert_eq!(dir("foo/bar/").component_strs(), vec!["foo", "bar", ""]);
    assert_eq!(dir("foo/").component_strs(), vec!["foo", ""]);
}

#[test]
fn dir_path_from_component() {
    let c = "foo".parse::<Component>().unwrap();
    assert_eq!(PureDirPath::from_component(c).as_str(), "foo/");
}

#[test]
fn dir_path_clone() {
    let p = dir("foo/bar/");
    assert_eq!(p.clone().as_str(), "foo/bar/");
    assert_eq!(p.clone(), p);
}

#[test]
fn equality_with_text() {
    assert!(dir("foo/bar/") == "foo/bar/");
    assert!(dir("foo/bar/") == *"foo/bar/");
    assert!(dir("foo/bar/") != "foo/bar");
    assert!(dir("foo/bar/") != "foo/baz/");
}

#[test]
fn equality_is_by_text() {
    assert_eq!(dir("foo/bar/"), dir("foo/").join_one_dir(&"bar".parse().unwrap()));
    assert_ne!(dir("foo/bar/"), dir("foo/baz/"));
    assert_eq!("a".parse::<Component>().unwrap(), "a".parse::<Component>().unwrap());
    assert_ne!("a".parse::<Component>().unwrap(), "A".parse::<Component>().unwrap());
    assert_eq!("a/b".parse::<PurePath>().unwrap(), dir("a/").join(&"b".parse().unwrap()));
    assert_ne!("a/b".parse::<PurePath>().unwrap(), "a/c".parse::<PurePath>().unwrap());
}
