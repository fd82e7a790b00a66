//! The fixed names of the hierarchy.

use crate::paths::segments::is_component;
use vstd::prelude::*;

verus! {

/// A character that a component may hold.
pub open spec fn is_plain(c: char) -> bool {
    c != '/' && c != '\0'
}

/// Text of plain characters that holds something other than a dot is a
/// component.
pub proof fn lemma_plain_component(s: Seq<char>, at: int)
    requires
        0 <= at < s.len(),
        s[at] != '.',
        forall|i: int| 0 <= i < s.len() ==> is_plain(#[trigger] s[i]),
    ensures
        is_component(s),
{
    if s.contains('/') {
        let i = choose|i: int| 0 <= i < s.len() && s[i] == '/';
        assert(is_plain(s[i]));
    }
    if s.contains('\0') {
        let i = choose|i: int| 0 <= i < s.len() && s[i] == '\0';
        assert(is_plain(s[i]));
    }
    if s == seq!['.'] {
        assert(s[at] == '.');
    }
    if s == seq!['.', '.'] {
        assert(s[at] == '.');
    }
}

pub proof fn lemma_dandisets_component()
    ensures
        is_component("dandisets"@),
{
    reveal_strlit("dandisets");
    let s = "dandisets"@;
    assert forall|i: int| 0 <= i < s.len() implies is_plain(#[trigger] s[i]) by {
        if i == 0 {
        } else if i == 1 {
        } else if i == 2 {
        } else if i == 3 {
        } else if i == 4 {
        } else if i == 5 {
        } else if i == 6 {
        } else if i == 7 {
        } else {
        }
    }
    lemma_plain_component(s, 0);
}

pub proof fn lemma_zarrs_component()
    ensures
        is_component("zarrs"@),
{
    reveal_strlit("zarrs");
    let s = "zarrs"@;
    assert forall|i: int| 0 <= i < s.len() implies is_plain(#[trigger] s[i]) by {
        if i == 0 {
        } else if i == 1 {
        } else if i == 2 {
        } else if i == 3 {
        } else {
        }
    }
    lemma_plain_component(s, 0);
}

pub proof fn lemma_releases_component()
    ensures
        is_component("releases"@),
{
    reveal_strlit("releases");
    let s = "releases"@;
    assert forall|i: int| 0 <= i < s.len() implies is_plain(#[trigger] s[i]) by {
        if i == 0 {
        } else if i == 1 {
        } else if i == 2 {
        } else if i == 3 {
        } else if i == 4 {
        } else if i == 5 {
        } else if i == 6 {
        } else {
        }
    }
    lemma_plain_component(s, 0);
}

pub proof fn lemma_draft_component()
    ensures
        is_component("draft"@),
{
    reveal_strlit("draft");
    let s = "draft"@;
    assert forall|i: int| 0 <= i < s.len() implies is_plain(#[trigger] s[i]) by {
        if i == 0 {
        } else if i == 1 {
        } else if i == 2 {
        } else if i == 3 {
        } else {
        }
    }
    lemma_plain_component(s, 0);
}

pub proof fn lemma_latest_component()
    ensures
        is_component("latest"@),
{
    reveal_strlit("latest");
    let s = "latest"@;
    assert forall|i: int| 0 <= i < s.len() implies is_plain(#[trigger] s[i]) by {
        if i == 0 {
        } else if i == 1 {
        } else if i == 2 {
        } else if i == 3 {
        } else if i == 4 {
        } else {
        }
    }
    lemma_plain_component(s, 0);
}

pub proof fn lemma_dandiset_yaml_component()
    ensures
        is_component("dandiset.yaml"@),
{
    reveal_strlit("dandiset.yaml");
    let s = "dandiset.yaml"@;
    assert forall|i: int| 0 <= i < s.len() implies is_plain(#[trigger] s[i]) by {
        if i == 0 {
        } else if i == 1 {
        } else if i == 2 {
        } else if i == 3 {
        } else if i == 4 {
        } else if i == 5 {
        } else if i == 6 {
        } else if i == 7 {
        } else if i == 8 {
        } else if i == 9 {
        } else if i == 10 {
        } else if i == 11 {
        } else {
        }
    }
    lemma_plain_component(s, 0);
}

} // verus!
