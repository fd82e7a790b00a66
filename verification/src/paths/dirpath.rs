//! Directory paths.

use crate::paths::component::Component;
use crate::paths::purepath::PurePath;
use crate::paths::segments::{
    dir_name, dir_parent, is_component, is_pure_dir_path, lemma_component_is_pure_path,
    lemma_join_dir, lemma_join_file, lemma_pure_path_prefix, lemma_relative_dir,
    lemma_segments_at_last_slash, lemma_segments_nonempty, lemma_segments_without_slash, relative,
    segments,
};
use crate::paths::text::{
    chars_of, contains_char, is_prefix_chars, is_pure_path_chars, last_slash, same_text,
};
use vstd::prelude::*;
use vstd::string::*;

verus! {

/// Why a string is not a [`PureDirPath`].
#[derive(Clone, Copy, Debug, PartialEq, Eq, Structural)]
pub enum ParsePureDirPathError {
    /// The string is empty or does not end with a forward slash.
    NotDir,
    /// The string starts with a forward slash.
    StartsWithSlash,
    /// The string contains NUL.
    Nul,
    /// A segment is empty, `.` or `..`.
    NotNormalized,
}

/// The error that parsing reports for text that is not a directory path.
/// NUL is looked for first, then the final slash, then a leading slash; what
/// is left has a segment that is no component.
pub open spec fn dir_path_error(s: Seq<char>) -> ParsePureDirPathError {
    if s.contains('\0') {
        ParsePureDirPathError::Nul
    } else if s.len() == 0 || s.last() != '/' {
        ParsePureDirPathError::NotDir
    } else if s[0] == '/' {
        ParsePureDirPathError::StartsWithSlash
    } else {
        ParsePureDirPathError::NotNormalized
    }
}

/// A nonempty, forward-slash-separated path that ends in (but does not
/// equal) a forward slash and contains no `.` or `..` segment, no leading
/// slash, no two slashes in a row and no NUL.
#[derive(Debug)]
pub struct PureDirPath(pub(super) String);

impl View for PureDirPath {
    type V = Seq<char>;

    closed spec fn view(&self) -> Seq<char> {
        self.0@
    }
}

impl PureDirPath {
    /// Every directory path satisfies the directory-path grammar.
    #[verifier::type_invariant]
    pub open spec fn inv(&self) -> bool {
        is_pure_dir_path(self@)
    }

    /// Parses `s` as a directory path.  On success the path reads exactly as
    /// `s` does.
    pub fn parse(s: &str) -> (r: Result<PureDirPath, ParsePureDirPathError>)
        ensures
            match r {
                Ok(p) => is_pure_dir_path(s@) && p@ == s@,
                Err(e) => !is_pure_dir_path(s@) && e == dir_path_error(s@),
            },
    {
        let v = chars_of(s);
        let n = v.len();
        assert(v@.subrange(0, n as int) =~= s@);
        if n > 0 && v[n - 1] == '/' && is_pure_path_chars(&v, n - 1) {
            Ok(PureDirPath(s.to_owned()))
        } else if contains_char(&v, 0, n, '\0') {
            Err(ParsePureDirPathError::Nul)
        } else if n == 0 || v[n - 1] != '/' {
            Err(ParsePureDirPathError::NotDir)
        } else if v[0] == '/' {
            Err(ParsePureDirPathError::StartsWithSlash)
        } else {
            Err(ParsePureDirPathError::NotNormalized)
        }
    }

    /// Wraps text already known to be a directory path.
    pub(crate) fn from_valid(s: String) -> (p: PureDirPath)
        requires
            is_pure_dir_path(s@),
        ensures
            p@ == s@,
    {
        PureDirPath(s)
    }

    /// The directory path of one segment, `c`.
    pub fn from_component(c: Component) -> (p: PureDirPath)
        ensures
            p@ == c@ + seq!['/'],
    {
        let mut s = c.to_string();
        proof {
            reveal_strlit("/");
            use_type_invariant(&c);
            lemma_component_is_pure_path(c@);
            assert((c@ + "/"@).drop_last() =~= c@);
            assert("/"@ =~= seq!['/']);
        }
        s.append("/");
        PureDirPath(s)
    }

    /// The path as text.
    pub fn as_str(&self) -> (s: &str)
        ensures
            s@ == self@,
            is_pure_dir_path(s@),
    {
        proof {
            use_type_invariant(self);
        }
        self.0.as_str()
    }

    /// The path as an owned string.
    pub fn to_string(&self) -> (s: String)
        ensures
            s@ == self@,
    {
        self.0.clone()
    }

    /// The last segment of the path, without the final slash.
    pub fn name_str(&self) -> (name: &str)
        ensures
            name@ == dir_name(self@),
            is_component(name@),
    {
        let s = self.as_str();
        let v = chars_of(s);
        let n = v.len();
        let ghost x = s@.drop_last();
        proof {
            assert(v@.take(n - 1) =~= x);
            lemma_segments_nonempty(x);
        }
        let from: usize = match last_slash(&v, n - 1) {
            Some(i) => {
                proof {
                    assert(x.subrange(i + 1, x.len() as int) =~= v@.subrange(i + 1, n - 1));
                    lemma_segments_at_last_slash(x, i as int);
                }
                i + 1
            },
            None => {
                proof {
                    lemma_segments_without_slash(x);
                    assert(x =~= s@.subrange(0, n - 1));
                }
                0
            },
        };
        assert(is_component(segments(x)[segments(x).len() - 1]));
        s.substring_char(from, n - 1)
    }

    /// The last segment of the path.
    pub fn name(&self) -> (c: Component)
        ensures
            c@ == dir_name(self@),
    {
        Component::from_valid(self.name_str().to_owned())
    }

    /// The path without its last segment, or `None` where it has only one.
    pub fn parent(&self) -> (r: Option<PureDirPath>)
        ensures
            match r {
                Some(p) => dir_parent(self@) == Some(p@),
                None => dir_parent(self@) is None,
            },
    {
        let s = self.as_str();
        let v = chars_of(s);
        let n = v.len();
        let ghost x = s@.drop_last();
        proof {
            assert(v@.take(n - 1) =~= x);
        }
        match last_slash(&v, n - 1) {
            Some(i) => {
                proof {
                    assert(x.subrange(i + 1, x.len() as int) =~= v@.subrange(i + 1, n - 1));
                    lemma_segments_at_last_slash(x, i as int);
                    lemma_pure_path_prefix(x, i as int);
                    assert(x.take(i + 1) =~= s@.subrange(0, i + 1));
                    assert(x.take(i + 1).drop_last() =~= x.take(i as int));
                }
                Some(PureDirPath(s.substring_char(0, i + 1).to_owned()))
            },
            None => {
                proof {
                    lemma_segments_without_slash(x);
                }
                None
            },
        }
    }

    /// The file path `path` inside this directory.
    pub fn join(&self, path: &PurePath) -> (r: PurePath)
        ensures
            r@ == self@ + path@,
    {
        let tail = path.as_str();
        proof {
            use_type_invariant(self);
            lemma_join_file(self@, path@);
        }
        PurePath::from_valid(self.0.clone().concat(tail))
    }

    /// The directory path `path` inside this directory.
    pub fn join_dir(&self, path: &PureDirPath) -> (r: PureDirPath)
        ensures
            r@ == self@ + path@,
    {
        proof {
            use_type_invariant(self);
            use_type_invariant(path);
            lemma_join_dir(self@, path@);
        }
        PureDirPath(self.0.clone().concat(path.0.as_str()))
    }

    /// The directory named `c` inside this directory.
    pub fn join_one_dir(&self, c: &Component) -> (r: PureDirPath)
        ensures
            r@ == self@ + c@ + seq!['/'],
    {
        let mut tail = c.to_string();
        proof {
            use_type_invariant(self);
            use_type_invariant(c);
            reveal_strlit("/");
            lemma_component_is_pure_path(c@);
            assert("/"@ =~= seq!['/']);
            assert((c@ + seq!['/']).drop_last() =~= c@);
            lemma_join_dir(self@, c@ + seq!['/']);
            assert(self@ + (c@ + seq!['/']) =~= self@ + c@ + seq!['/']);
        }
        tail.append("/");
        PureDirPath(self.0.clone().concat(tail.as_str()))
    }

    /// Appends the segment `c`, keeping the final slash.
    pub fn push(&mut self, c: &Component)
        ensures
            final(self)@ == old(self)@ + c@ + seq!['/'],
    {
        let longer = self.join_one_dir(c);
        *self = longer;
    }

    /// This path relative to `dirpath`: what follows `dirpath` where this
    /// path begins with it and goes on.  `None` where it does not begin with
    /// `dirpath`, and where the two are equal.
    pub fn relative_to(&self, dirpath: &PureDirPath) -> (r: Option<PureDirPath>)
        ensures
            match r {
                Some(p) => relative(self@, dirpath@) == Some(p@),
                None => relative(self@, dirpath@) is None,
            },
    {
        let s = self.as_str();
        let v = chars_of(s);
        let w = chars_of(dirpath.as_str());
        if is_prefix_chars(&w, &v) && w.len() < v.len() {
            proof {
                lemma_relative_dir(self@, dirpath@);
                assert(s@.subrange(w.len() as int, v.len() as int) =~= s@.skip(w.len() as int));
            }
            Some(PureDirPath(s.substring_char(w.len(), v.len()).to_owned()))
        } else {
            None
        }
    }

    /// The pieces of the path between its forward slashes, the empty piece
    /// after the final slash included.
    pub fn component_strs(&self) -> (parts: Vec<&str>)
        ensures
            parts@.len() == segments(self@).len(),
            forall|k: int| 0 <= k < parts@.len() ==> (#[trigger] parts@[k])@ == segments(self@)[k],
    {
        let s = self.as_str();
        let v = chars_of(s);
        let n = v.len();
        let mut parts: Vec<&str> = Vec::new();
        let mut i: usize = 0;
        let mut start: usize = 0;
        proof {
            assert(v@.take(0) =~= Seq::<char>::empty());
            assert(v@.subrange(0, 0) =~= Seq::<char>::empty());
            assert(segments(v@.take(0)) == seq![Seq::<char>::empty()]);
        }
        while i < n
            invariant
                start <= i <= n == v.len(),
                v@ == s@,
                parts@.len() + 1 == segments(v@.take(i as int)).len(),
                segments(v@.take(i as int)).last() == v@.subrange(start as int, i as int),
                forall|k: int|
                    0 <= k < parts@.len() ==> (#[trigger] parts@[k])@ == segments(
                        v@.take(i as int),
                    )[k],
            decreases n - i,
        {
            let ghost pre = v@.take(i as int);
            let ghost nxt = v@.take(i + 1);
            proof {
                assert(nxt.drop_last() == pre);
                assert(nxt.last() == v@[i as int]);
            }
            if v[i] == '/' {
                parts.push(s.substring_char(start, i));
                proof {
                    assert(v@.subrange(i + 1, i + 1) =~= Seq::<char>::empty());
                }
                start = i + 1;
            } else {
                proof {
                    assert(v@.subrange(start as int, i as int).push(v@[i as int]) =~= v@.subrange(
                        start as int,
                        i + 1,
                    ));
                }
            }
            i += 1;
        }
        parts.push(s.substring_char(start, n));
        assert(v@.take(n as int) =~= s@);
        parts
    }
}

impl PartialEq for PureDirPath {
    fn eq(&self, other: &PureDirPath) -> (r: bool) {
        self.0 == other.0
    }
}

impl Eq for PureDirPath {

}

impl vstd::std_specs::cmp::PartialEqSpecImpl for PureDirPath {
    open spec fn obeys_eq_spec() -> bool {
        true
    }

    /// Two values are equal exactly when they read the same.
    open spec fn eq_spec(&self, other: &PureDirPath) -> bool {
        self@ == other@
    }
}

impl PartialEq<str> for PureDirPath {
    fn eq(&self, other: &str) -> (r: bool) {
        same_text(self.0.as_str(), other)
    }
}

impl vstd::std_specs::cmp::PartialEqSpecImpl<str> for PureDirPath {
    open spec fn obeys_eq_spec() -> bool {
        true
    }

    /// A path equals a text exactly when it reads as the text does.
    open spec fn eq_spec(&self, other: &str) -> bool {
        self@ == other@
    }
}

impl<'a> PartialEq<&'a str> for PureDirPath {
    fn eq(&self, other: &&'a str) -> (r: bool) {
        same_text(self.0.as_str(), *other)
    }
}

impl<'a> vstd::std_specs::cmp::PartialEqSpecImpl<&'a str> for PureDirPath {
    open spec fn obeys_eq_spec() -> bool {
        true
    }

    /// A path equals a text exactly when it reads as the text does.
    open spec fn eq_spec(&self, other: &&'a str) -> bool {
        self@ == other@
    }
}

impl Clone for PureDirPath {
    fn clone(&self) -> (p: Self)
        ensures
            p == *self,
    {
        proof {
            use_type_invariant(self);
        }
        PureDirPath(self.0.clone())
    }
}

impl std::str::FromStr for PureDirPath {
    type Err = ParsePureDirPathError;

    fn from_str(s: &str) -> (r: Result<PureDirPath, ParsePureDirPathError>)
        ensures
            match r {
                Ok(p) => is_pure_dir_path(s@) && p@ == s@,
                Err(e) => !is_pure_dir_path(s@) && e == dir_path_error(s@),
            },
    {
        PureDirPath::parse(s)
    }
}

} // verus!
