//! A single segment of a path.

use crate::paths::segments::is_component;
use crate::paths::text::{chars_of, contains_char, is_component_chars};
use vstd::prelude::*;

verus! {

/// Why a string is not a [`Component`].
#[derive(Clone, Copy, Debug, PartialEq, Eq, Structural)]
pub enum ParseComponentError {
    /// The string is empty.
    Empty,
    /// The string contains NUL.
    Nul,
    /// The string contains a forward slash.
    Slash,
    /// The string is `.` or `..`.
    SpecialDir,
}

/// The error that parsing reports for text that is not a component.  The
/// checks are made in the order of the variants.
pub open spec fn component_error(s: Seq<char>) -> ParseComponentError {
    if s.len() == 0 {
        ParseComponentError::Empty
    } else if s.contains('\0') {
        ParseComponentError::Nul
    } else if s.contains('/') {
        ParseComponentError::Slash
    } else {
        ParseComponentError::SpecialDir
    }
}

/// A nonempty path segment that contains neither a forward slash nor NUL and
/// is neither `.` nor `..`.
#[derive(Debug)]
pub struct Component(pub(super) String);

impl View for Component {
    type V = Seq<char>;

    closed spec fn view(&self) -> Seq<char> {
        self.0@
    }
}

impl Component {
    /// Every component satisfies the component grammar.
    #[verifier::type_invariant]
    pub open spec fn inv(&self) -> bool {
        is_component(self@)
    }

    /// Parses `s` as a component.  On success the component reads exactly as
    /// `s` does.
    pub fn parse(s: &str) -> (r: Result<Component, ParseComponentError>)
        ensures
            match r {
                Ok(c) => is_component(s@) && c@ == s@,
                Err(e) => !is_component(s@) && e == component_error(s@),
            },
    {
        let v = chars_of(s);
        let n = v.len();
        assert(v@.subrange(0, n as int) =~= s@);
        if n == 0 {
            Err(ParseComponentError::Empty)
        } else if contains_char(&v, 0, n, '\0') {
            Err(ParseComponentError::Nul)
        } else if contains_char(&v, 0, n, '/') {
            Err(ParseComponentError::Slash)
        } else if !is_component_chars(&v, 0, n) {
            Err(ParseComponentError::SpecialDir)
        } else {
            Ok(Component(s.to_owned()))
        }
    }

    /// Wraps text already known to be a component.
    pub(crate) fn from_valid(s: String) -> (c: Component)
        requires
            is_component(s@),
        ensures
            c@ == s@,
    {
        Component(s)
    }

    /// The component as text.
    pub fn as_str(&self) -> (s: &str)
        ensures
            s@ == self@,
            is_component(s@),
    {
        proof {
            use_type_invariant(self);
        }
        self.0.as_str()
    }

    /// The component as an owned string.
    pub fn to_string(&self) -> (s: String)
        ensures
            s@ == self@,
    {
        self.0.clone()
    }
}

impl PartialEq for Component {
    fn eq(&self, other: &Component) -> (r: bool) {
        self.0 == other.0
    }
}

impl Eq for Component {

}

impl vstd::std_specs::cmp::PartialEqSpecImpl for Component {
    open spec fn obeys_eq_spec() -> bool {
        true
    }

    /// Two values are equal exactly when they read the same.
    open spec fn eq_spec(&self, other: &Component) -> bool {
        self@ == other@
    }
}

impl Clone for Component {
    fn clone(&self) -> (c: Self)
        ensures
            c == *self,
    {
        proof {
            use_type_invariant(self);
        }
        Component(self.0.clone())
    }
}

impl std::str::FromStr for Component {
    type Err = ParseComponentError;

    fn from_str(s: &str) -> (r: Result<Component, ParseComponentError>)
        ensures
            match r {
                Ok(c) => is_component(s@) && c@ == s@,
                Err(e) => !is_component(s@) && e == component_error(s@),
            },
    {
        Component::parse(s)
    }
}

} // verus!
