//! File-like paths.

use crate::paths::component::Component;
use crate::paths::dirpath::PureDirPath;
use crate::paths::segments::{
    is_component, is_pure_path, joined, lemma_component_is_pure_path, lemma_pure_path_concat,
    lemma_pure_path_prefix, lemma_relative_file, lemma_segments_at_last_slash,
    lemma_segments_nonempty, lemma_segments_without_slash, path_name, path_parent, relative,
    segments,
};
use crate::paths::text::{chars_of, contains_char, is_prefix_chars, is_pure_path_chars, last_slash};
use vstd::prelude::*;
use vstd::string::*;

verus! {

/// Why a string is not a [`PurePath`].
#[derive(Clone, Copy, Debug, PartialEq, Eq, Structural)]
pub enum ParsePurePathError {
    /// The string is empty or ends with a forward slash.
    NotFile,
    /// The string starts with a forward slash.
    StartsWithSlash,
    /// The string contains NUL.
    Nul,
    /// A segment is empty, `.` or `..`.
    NotNormalized,
}

/// The error that parsing reports for text that is not a pure path.  NUL is
/// looked for first, then a leading slash, then a final slash; what is left
/// has a segment that is no component.
pub open spec fn pure_path_error(s: Seq<char>) -> ParsePurePathError {
    if s.contains('\0') {
        ParsePurePathError::Nul
    } else if s.len() == 0 {
        ParsePurePathError::NotFile
    } else if s[0] == '/' {
        ParsePurePathError::StartsWithSlash
    } else if s.last() == '/' {
        ParsePurePathError::NotFile
    } else {
        ParsePurePathError::NotNormalized
    }
}

/// The texts of a list of components.
pub open spec fn component_texts(parts: Seq<Component>) -> Seq<Seq<char>> {
    parts.map_values(|c: Component| c@)
}

/// A nonempty, forward-slash-separated path that neither begins nor ends
/// with a forward slash and contains no `.` or `..` segment, no two slashes
/// in a row and no NUL.
#[derive(Debug)]
pub struct PurePath(pub(super) String);

impl View for PurePath {
    type V = Seq<char>;

    closed spec fn view(&self) -> Seq<char> {
        self.0@
    }
}

impl PurePath {
    /// Every pure path satisfies the pure-path grammar.
    #[verifier::type_invariant]
    pub open spec fn inv(&self) -> bool {
        is_pure_path(self@)
    }

    /// Parses `s` as a pure path.  On success the path reads exactly as `s`
    /// does.
    pub fn parse(s: &str) -> (r: Result<PurePath, ParsePurePathError>)
        ensures
            match r {
                Ok(p) => is_pure_path(s@) && p@ == s@,
                Err(e) => !is_pure_path(s@) && e == pure_path_error(s@),
            },
    {
        let v = chars_of(s);
        let n = v.len();
        assert(v@.subrange(0, n as int) =~= s@);
        assert(v@.take(n as int) =~= s@);
        if is_pure_path_chars(&v, n) {
            Ok(PurePath(s.to_owned()))
        } else if contains_char(&v, 0, n, '\0') {
            Err(ParsePurePathError::Nul)
        } else if n == 0 {
            Err(ParsePurePathError::NotFile)
        } else if v[0] == '/' {
            Err(ParsePurePathError::StartsWithSlash)
        } else if v[n - 1] == '/' {
            Err(ParsePurePathError::NotFile)
        } else {
            Err(ParsePurePathError::NotNormalized)
        }
    }

    /// Wraps text already known to be a pure path.
    pub(crate) fn from_valid(s: String) -> (p: PurePath)
        requires
            is_pure_path(s@),
        ensures
            p@ == s@,
    {
        PurePath(s)
    }

    /// The path of one segment, `c`.
    pub fn from_component(c: Component) -> (p: PurePath)
        ensures
            p@ == c@,
    {
        let s = c.to_string();
        proof {
            use_type_invariant(&c);
            lemma_component_is_pure_path(c@);
        }
        PurePath(s)
    }

    /// The path made of `parts`, with a slash between neighbours; `None`
    /// where there are no parts.
    pub fn from_components(parts: &[Component]) -> (r: Option<PurePath>)
        ensures
            match r {
                Some(p) => parts@.len() > 0 && p@ == joined(component_texts(parts@)),
                None => parts@.len() == 0,
            },
    {
        if parts.len() == 0 {
            return None;
        }
        let ghost texts = component_texts(parts@);
        let first = parts[0].as_str();
        let mut s = first.to_owned();
        proof {
            lemma_component_is_pure_path(first@);
            assert(texts.take(1) =~= seq![parts@[0]@]);
        }
        let mut i: usize = 1;
        while i < parts.len()
            invariant
                1 <= i <= parts.len(),
                texts == component_texts(parts@),
                s@ == joined(texts.take(i as int)),
                is_pure_path(s@),
            decreases parts.len() - i,
        {
            let ghost before = s@;
            let piece = parts[i].as_str();
            proof {
                reveal_strlit("/");
                assert("/"@ =~= seq!['/']);
                lemma_component_is_pure_path(piece@);
                lemma_pure_path_concat(before, piece@);
                assert(texts.take(i + 1).drop_last() =~= texts.take(i as int));
                assert(texts.take(i + 1).last() == piece@);
            }
            s.append("/");
            s.append(piece);
            i += 1;
        }
        assert(texts.take(parts@.len() as int) =~= texts);
        Some(PurePath(s))
    }

    /// The last segment of the path.
    pub fn name_str(&self) -> (name: &str)
        ensures
            name@ == path_name(self@),
            is_component(name@),
    {
        let s = self.as_str();
        let v = chars_of(s);
        let n = v.len();
        let ghost x = s@;
        proof {
            assert(v@.take(n as int) =~= x);
            lemma_segments_nonempty(x);
        }
        let from: usize = match last_slash(&v, n) {
            Some(i) => {
                proof {
                    lemma_segments_at_last_slash(x, i as int);
                }
                i + 1
            },
            None => {
                proof {
                    lemma_segments_without_slash(x);
                    assert(x =~= s@.subrange(0, n as int));
                }
                0
            },
        };
        assert(is_component(segments(x)[segments(x).len() - 1]));
        s.substring_char(from, n)
    }

    /// The last segment of the path.
    pub fn name(&self) -> (c: Component)
        ensures
            c@ == path_name(self@),
    {
        Component::from_valid(self.name_str().to_owned())
    }

    /// The directory that holds the path, or `None` where the path has only
    /// one segment.
    pub fn parent(&self) -> (r: Option<PureDirPath>)
        ensures
            match r {
                Some(p) => path_parent(self@) == Some(p@),
                None => path_parent(self@) is None,
            },
    {
        let s = self.as_str();
        let v = chars_of(s);
        let n = v.len();
        let ghost x = s@;
        proof {
            assert(v@.take(n as int) =~= x);
        }
        match last_slash(&v, n) {
            Some(i) => {
                proof {
                    lemma_segments_at_last_slash(x, i as int);
                    lemma_pure_path_prefix(x, i as int);
                    assert(x.take(i + 1) =~= s@.subrange(0, i + 1));
                    assert(x.take(i + 1).drop_last() =~= x.take(i as int));
                }
                Some(PureDirPath::from_valid(s.substring_char(0, i + 1).to_owned()))
            },
            None => {
                proof {
                    lemma_segments_without_slash(x);
                }
                None
            },
        }
    }

    /// The same segments as a directory path.
    pub fn to_dir_path(&self) -> (d: PureDirPath)
        ensures
            d@ == self@ + seq!['/'],
    {
        proof {
            use_type_invariant(self);
            reveal_strlit("/");
            assert("/"@ =~= seq!['/']);
            assert((self@ + seq!['/']).drop_last() =~= self@);
        }
        PureDirPath::from_valid(self.0.clone().concat("/"))
    }

    /// This path relative to `dirpath`: what follows `dirpath` where this
    /// path begins with it; `None` where it does not.
    pub fn relative_to(&self, dirpath: &PureDirPath) -> (r: Option<PurePath>)
        ensures
            match r {
                Some(p) => relative(self@, dirpath@) == Some(p@),
                None => relative(self@, dirpath@) is None,
            },
    {
        let s = self.as_str();
        let v = chars_of(s);
        let w = chars_of(dirpath.as_str());
        if is_prefix_chars(&w, &v) && w.len() < v.len() {
            proof {
                lemma_relative_file(self@, dirpath@);
                assert(s@.subrange(w.len() as int, v.len() as int) =~= s@.skip(w.len() as int));
            }
            Some(PurePath(s.substring_char(w.len(), v.len()).to_owned()))
        } else {
            None
        }
    }

    /// The path as text.
    pub fn as_str(&self) -> (s: &str)
        ensures
            s@ == self@,
            is_pure_path(s@),
    {
        proof {
            use_type_invariant(self);
        }
        self.0.as_str()
    }

    /// The path as an owned string.
    pub fn to_string(&self) -> (s: String)
        ensures
            s@ == self@,
    {
        self.0.clone()
    }
}

impl PartialEq for PurePath {
    fn eq(&self, other: &PurePath) -> (r: bool) {
        self.0 == other.0
    }
}

impl Eq for PurePath {

}

impl vstd::std_specs::cmp::PartialEqSpecImpl for PurePath {
    open spec fn obeys_eq_spec() -> bool {
        true
    }

    /// Two values are equal exactly when they read the same.
    open spec fn eq_spec(&self, other: &PurePath) -> bool {
        self@ == other@
    }
}

impl Clone for PurePath {
    fn clone(&self) -> (p: Self)
        ensures
            p == *self,
    {
        proof {
            use_type_invariant(self);
        }
        PurePath(self.0.clone())
    }
}

impl std::str::FromStr for PurePath {
    type Err = ParsePurePathError;

    fn from_str(s: &str) -> (r: Result<PurePath, ParsePurePathError>)
        ensures
            match r {
                Ok(p) => is_pure_path(s@) && p@ == s@,
                Err(e) => !is_pure_path(s@) && e == pure_path_error(s@),
            },
    {
        PurePath::parse(s)
    }
}

} // verus!
