//! Small parts of the protocol: the `Depth` header and the names of verbs.

use crate::paths::text::{chars_of, same_text};
use vstd::prelude::*;

verus! {

/// The ASCII capital letter for an ASCII small letter; any other character
/// is left as it is.
pub open spec fn ascii_upper(c: char) -> char {
    if 'a' <= c && c <= 'z' {
        ((c as u8 - 32) as u8) as char
    } else {
        c
    }
}

/// Whether two texts are equal once ASCII small letters are read as
/// capitals.
pub open spec fn equal_ignoring_ascii_case(a: Seq<char>, b: Seq<char>) -> bool {
    &&& a.len() == b.len()
    &&& forall|i: int| 0 <= i < a.len() ==> ascii_upper(#[trigger] a[i]) == ascii_upper(b[i])
}

/// The ASCII capital letter for an ASCII small letter; any other character
/// is returned as it is.
pub fn to_ascii_upper(c: char) -> (u: char)
    ensures
        u == ascii_upper(c),
{
    if 'a' <= c && c <= 'z' {
        ((c as u8) - 32) as char
    } else {
        c
    }
}

/// Whether `a` and `b` are equal but for the case of ASCII letters.
pub fn eq_ignore_ascii_case(a: &str, b: &str) -> (same: bool)
    ensures
        same == equal_ignoring_ascii_case(a@, b@),
{
    let v = chars_of(a);
    let w = chars_of(b);
    if v.len() != w.len() {
        return false;
    }
    let mut i: usize = 0;
    while i < v.len()
        invariant
            i <= v.len() == w.len(),
            v@ == a@,
            w@ == b@,
            forall|k: int| 0 <= k < i ==> ascii_upper(#[trigger] v@[k]) == ascii_upper(w@[k]),
        decreases v.len() - i,
    {
        if to_ascii_upper(v[i]) != to_ascii_upper(w[i]) {
            assert(ascii_upper(a@[i as int]) != ascii_upper(b@[i as int]));
            return false;
        }
        i += 1;
    }
    true
}

/// A depth that a `PROPFIND` request may ask for.
#[derive(Clone, Copy, Debug, PartialEq, Eq, Structural)]
pub enum FiniteDepth {
    /// The resource alone.
    Zero,
    /// The resource and its immediate children.
    One,
}

/// Why the `Depth` header of a request is not accepted.
#[derive(Clone, Copy, Debug, PartialEq, Eq, Structural)]
pub enum DepthError {
    /// The request has no `Depth` header.
    Missing,
    /// The header asks for `infinity`, which is not supported.
    Infinite,
    /// The header holds something else.
    Invalid,
}

/// The depth that the value of a `Depth` header stands for: exactly `0` and
/// exactly `1` are accepted, and nothing else.
pub open spec fn depth_of(header: Option<Seq<char>>) -> Result<FiniteDepth, DepthError> {
    match header {
        None => Err(DepthError::Missing),
        Some(s) => if s == "0"@ {
            Ok(FiniteDepth::Zero)
        } else if s == "1"@ {
            Ok(FiniteDepth::One)
        } else if s == "infinity"@ {
            Err(DepthError::Infinite)
        } else {
            Err(DepthError::Invalid)
        },
    }
}

/// The text of an optional string slice.
pub open spec fn slice_text(s: Option<&str>) -> Option<Seq<char>> {
    match s {
        Some(s) => Some(s@),
        None => None,
    }
}

impl FiniteDepth {
    /// Reads the value of the `Depth` header of a request, if it has one.
    pub fn parse(header: Option<&str>) -> (r: Result<FiniteDepth, DepthError>)
        ensures
            r == depth_of(slice_text(header)),
    {
        match header {
            None => Err(DepthError::Missing),
            Some(s) => {
                if same_text(s, "0") {
                    Ok(FiniteDepth::Zero)
                } else if same_text(s, "1") {
                    Ok(FiniteDepth::One)
                } else if same_text(s, "infinity") {
                    Err(DepthError::Infinite)
                } else {
                    Err(DepthError::Invalid)
                }
            },
        }
    }
}

} // verus!
