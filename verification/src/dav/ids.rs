//! Identifiers of Dandisets and of their versions.

use crate::paths::component::Component;
use crate::paths::segments::is_component;
use crate::paths::text::chars_of;
use vstd::prelude::*;

verus! {

/// An ASCII decimal digit.
pub open spec fn is_digit(c: char) -> bool {
    '0' <= c && c <= '9'
}

/// A nonempty run of ASCII decimal digits.
pub open spec fn is_digits(s: Seq<char>) -> bool {
    &&& s.len() > 0
    &&& forall|i: int| 0 <= i < s.len() ==> is_digit(#[trigger] s[i])
}

/// A Dandiset identifier: exactly six ASCII decimal digits.
pub open spec fn is_dandiset_id(s: Seq<char>) -> bool {
    s.len() == 6 && is_digits(s)
}

/// Whether `s` is three runs of digits with a dot at `i` and a dot at `j`
/// between them.
pub open spec fn is_version_id_at(s: Seq<char>, i: int, j: int) -> bool {
    &&& 0 <= i < j < s.len()
    &&& s[i] == '.'
    &&& s[j] == '.'
    &&& is_digits(s.take(i))
    &&& is_digits(s.subrange(i + 1, j))
    &&& is_digits(s.skip(j + 1))
}

/// The identifier of a published version: three nonempty runs of ASCII
/// decimal digits with a dot between neighbours, as in `0.210831.2033`.
pub open spec fn is_published_version_id(s: Seq<char>) -> bool {
    exists|i: int, j: int| is_version_id_at(s, i, j)
}

/// Text made of digits and dots that holds a digit is a component.
pub proof fn lemma_digits_and_dots_component(s: Seq<char>)
    requires
        s.len() > 0,
        forall|i: int| 0 <= i < s.len() ==> is_digit(#[trigger] s[i]) || s[i] == '.',
        exists|i: int| 0 <= i < s.len() && is_digit(#[trigger] s[i]),
    ensures
        is_component(s),
{
    let at = choose|i: int| 0 <= i < s.len() && is_digit(#[trigger] s[i]);
    if s.contains('/') {
        let i = choose|i: int| 0 <= i < s.len() && s[i] == '/';
        assert(is_digit(s[i]) || s[i] == '.');
    }
    if s.contains('\0') {
        let i = choose|i: int| 0 <= i < s.len() && s[i] == '\0';
        assert(is_digit(s[i]) || s[i] == '.');
    }
    if s == seq!['.'] {
        assert(s[at] == '.');
    }
    if s == seq!['.', '.'] {
        assert(s[at] == '.');
    }
}

/// A Dandiset identifier is a component.
pub proof fn lemma_dandiset_id_component(s: Seq<char>)
    requires
        is_dandiset_id(s),
    ensures
        is_component(s),
{
    assert(is_digit(s[0]));
    lemma_digits_and_dots_component(s);
}

/// The identifier of a published version is a component.
pub proof fn lemma_version_id_component(s: Seq<char>)
    requires
        is_published_version_id(s),
    ensures
        is_component(s),
{
    let (i, j) = choose|i: int, j: int| is_version_id_at(s, i, j);
    assert forall|k: int| 0 <= k < s.len() implies is_digit(#[trigger] s[k]) || s[k] == '.' by {
        if k < i {
            assert(s.take(i)[k] == s[k]);
        } else if i < k < j {
            assert(s.subrange(i + 1, j)[k - i - 1] == s[k]);
        } else if k > j {
            assert(s.skip(j + 1)[k - j - 1] == s[k]);
        }
    }
    assert(s.take(i)[0] == s[0]);
    assert(is_digit(s[0]));
    lemma_digits_and_dots_component(s);
}

/// Whether `c` is an ASCII decimal digit.
pub(crate) fn is_digit_char(c: char) -> (b: bool)
    ensures
        b == is_digit(c),
{
    '0' <= c && c <= '9'
}

/// The end of the run of digits that begins at `from`: the place of the first
/// character at or after `from` that is no digit, or the length of `v`.
pub(crate) fn digit_run(v: &Vec<char>, from: usize) -> (end: usize)
    requires
        from <= v.len(),
    ensures
        from <= end <= v.len(),
        forall|k: int| from <= k < end ==> is_digit(#[trigger] v@[k]),
        end < v.len() ==> !is_digit(v@[end as int]),
{
    let mut i: usize = from;
    while i < v.len() && is_digit_char(v[i])
        invariant
            from <= i <= v.len(),
            forall|k: int| from <= k < i ==> is_digit(#[trigger] v@[k]),
        decreases v.len() - i,
    {
        i += 1;
    }
    i
}

/// Whether `v` spells the identifier of a published version.
pub(crate) fn is_published_version_id_chars(v: &Vec<char>) -> (b: bool)
    ensures
        b == is_published_version_id(v@),
{
    let n = v.len();
    let ghost s = v@;
    let i = digit_run(v, 0);
    let first_ok = 0 < i && i < n && v[i] == '.';
    let j = if first_ok {
        digit_run(v, i + 1)
    } else {
        0
    };
    let second_ok = first_ok && i + 1 < j && j < n && v[j] == '.';
    let k = if second_ok {
        digit_run(v, j + 1)
    } else {
        0
    };
    let ok = second_ok && j + 1 < k && k == n;
    proof {
        if ok {
            assert(is_version_id_at(s, i as int, j as int));
        } else {
            assert forall|i2: int, j2: int| !is_version_id_at(s, i2, j2) by {
                if is_version_id_at(s, i2, j2) {
                    // The first dot ends the first run of digits.
                    assert(!is_digit(s[i2]));
                    if i < i2 {
                        assert(s.take(i2)[i as int] == s[i as int]);
                    }
                    assert(i == i2);
                    assert(s.take(i2)[0] == s[0]);
                    assert(first_ok);
                    assert(!is_digit(s[j2]));
                    if j < j2 {
                        assert(s.subrange(i2 + 1, j2)[j - i - 1] == s[j as int]);
                    }
                    assert(j == j2);
                    assert(s.subrange(i2 + 1, j2)[0] == s[i2 + 1]);
                    assert(second_ok);
                    if k < n {
                        assert(s.skip(j2 + 1)[k - j - 1] == s[k as int]);
                    }
                    assert(s.skip(j2 + 1)[0] == s[j2 + 1]);
                }
            }
        }
    }
    ok
}

/// The text was not a Dandiset identifier.
#[derive(Clone, Copy, Debug, PartialEq, Eq, Structural)]
pub struct ParseDandisetIdError;

/// The identifier of a Dandiset: six ASCII decimal digits.
#[derive(Debug)]
pub struct DandisetId(String);

impl View for DandisetId {
    type V = Seq<char>;

    closed spec fn view(&self) -> Seq<char> {
        self.0@
    }
}

impl DandisetId {
    /// Every identifier is six digits.
    #[verifier::type_invariant]
    pub open spec fn inv(&self) -> bool {
        is_dandiset_id(self@)
    }

    /// Parses `s` as a Dandiset identifier.
    pub fn parse(s: &str) -> (r: Result<DandisetId, ParseDandisetIdError>)
        ensures
            match r {
                Ok(id) => is_dandiset_id(s@) && id@ == s@,
                Err(_) => !is_dandiset_id(s@),
            },
    {
        let v = chars_of(s);
        if v.len() == 6 && digit_run(&v, 0) == 6 {
            Ok(DandisetId(s.to_owned()))
        } else {
            Err(ParseDandisetIdError)
        }
    }

    /// The identifier as text.
    pub fn as_str(&self) -> (s: &str)
        ensures
            s@ == self@,
            is_dandiset_id(s@),
    {
        proof {
            use_type_invariant(self);
        }
        self.0.as_str()
    }

    /// The identifier as a path segment.
    pub fn to_component(&self) -> (c: Component)
        ensures
            c@ == self@,
    {
        proof {
            use_type_invariant(self);
            lemma_dandiset_id_component(self@);
        }
        Component::from_valid(self.0.clone())
    }
}

impl PartialEq for DandisetId {
    fn eq(&self, other: &DandisetId) -> (r: bool) {
        self.0 == other.0
    }
}

impl Eq for DandisetId {

}

impl vstd::std_specs::cmp::PartialEqSpecImpl for DandisetId {
    open spec fn obeys_eq_spec() -> bool {
        true
    }

    /// Two values are equal exactly when they read the same.
    open spec fn eq_spec(&self, other: &DandisetId) -> bool {
        self@ == other@
    }
}

impl Clone for DandisetId {
    fn clone(&self) -> (id: Self)
        ensures
            id == *self,
    {
        proof {
            use_type_invariant(self);
        }
        DandisetId(self.0.clone())
    }
}

impl std::str::FromStr for DandisetId {
    type Err = ParseDandisetIdError;

    fn from_str(s: &str) -> (r: Result<DandisetId, ParseDandisetIdError>)
        ensures
            match r {
                Ok(id) => is_dandiset_id(s@) && id@ == s@,
                Err(_) => !is_dandiset_id(s@),
            },
    {
        DandisetId::parse(s)
    }
}

/// The text was not the identifier of a published version.
#[derive(Clone, Copy, Debug, PartialEq, Eq, Structural)]
pub struct ParsePublishedVersionIdError;

/// The identifier of a published version of a Dandiset.
#[derive(Debug)]
pub struct PublishedVersionId(String);

impl View for PublishedVersionId {
    type V = Seq<char>;

    closed spec fn view(&self) -> Seq<char> {
        self.0@
    }
}

impl PublishedVersionId {
    /// Every identifier satisfies the version grammar.
    #[verifier::type_invariant]
    pub open spec fn inv(&self) -> bool {
        is_published_version_id(self@)
    }

    /// Parses `s` as the identifier of a published version.
    pub fn parse(s: &str) -> (r: Result<PublishedVersionId, ParsePublishedVersionIdError>)
        ensures
            match r {
                Ok(id) => is_published_version_id(s@) && id@ == s@,
                Err(_) => !is_published_version_id(s@),
            },
    {
        let v = chars_of(s);
        if is_published_version_id_chars(&v) {
            Ok(PublishedVersionId(s.to_owned()))
        } else {
            Err(ParsePublishedVersionIdError)
        }
    }

    /// The identifier as text.
    pub fn as_str(&self) -> (s: &str)
        ensures
            s@ == self@,
            is_published_version_id(s@),
    {
        proof {
            use_type_invariant(self);
        }
        self.0.as_str()
    }

    /// The identifier as a path segment.
    pub fn to_component(&self) -> (c: Component)
        ensures
            c@ == self@,
    {
        proof {
            use_type_invariant(self);
            lemma_version_id_component(self@);
        }
        Component::from_valid(self.0.clone())
    }
}

impl PartialEq for PublishedVersionId {
    fn eq(&self, other: &PublishedVersionId) -> (r: bool) {
        self.0 == other.0
    }
}

impl Eq for PublishedVersionId {

}

impl vstd::std_specs::cmp::PartialEqSpecImpl for PublishedVersionId {
    open spec fn obeys_eq_spec() -> bool {
        true
    }

    /// Two values are equal exactly when they read the same.
    open spec fn eq_spec(&self, other: &PublishedVersionId) -> bool {
        self@ == other@
    }
}

impl Clone for PublishedVersionId {
    fn clone(&self) -> (id: Self)
        ensures
            id == *self,
    {
        proof {
            use_type_invariant(self);
        }
        PublishedVersionId(self.0.clone())
    }
}

impl std::str::FromStr for PublishedVersionId {
    type Err = ParsePublishedVersionIdError;

    fn from_str(s: &str) -> (r: Result<PublishedVersionId, ParsePublishedVersionIdError>)
        ensures
            match r {
                Ok(id) => is_published_version_id(s@) && id@ == s@,
                Err(_) => !is_published_version_id(s@),
            },
    {
        PublishedVersionId::parse(s)
    }
}

} // verus!
