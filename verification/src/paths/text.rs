//! Character-level helpers shared by the path types.

use crate::paths::segments::{
    all_components, is_component, is_pure_path, lemma_segments_concat, lemma_segments_nonempty,
    segments,
};
use vstd::prelude::*;

verus! {

/// The characters of `s`, in order.
pub fn chars_of(s: &str) -> (v: Vec<char>)
    ensures
        v@ == s@,
{
    let mut v: Vec<char> = Vec::new();
    for c in it: s.chars()
        invariant
            v@ == it.seq().take(it.index() as int),
            it.seq() == s@,
    {
        v.push(c);
    }
    v
}

/// Whether `c` occurs in `v[start..end]`.
pub(crate) fn contains_char(v: &Vec<char>, start: usize, end: usize, c: char) -> (b: bool)
    requires
        start <= end <= v.len(),
    ensures
        b == v@.subrange(start as int, end as int).contains(c),
{
    let ghost part = v@.subrange(start as int, end as int);
    let mut i: usize = start;
    while i < end
        invariant
            start <= i <= end <= v.len(),
            part == v@.subrange(start as int, end as int),
            forall|k: int| 0 <= k < i - start ==> part[k] != c,
        decreases end - i,
    {
        if v[i] == c {
            assert(part[i - start] == c);
            return true;
        }
        i += 1;
    }
    false
}

/// Whether `v[start..end]` is a component.
pub(crate) fn is_component_chars(v: &Vec<char>, start: usize, end: usize) -> (b: bool)
    requires
        start <= end <= v.len(),
    ensures
        b == is_component(v@.subrange(start as int, end as int)),
{
    let ghost part = v@.subrange(start as int, end as int);
    if end == start {
        return false;
    }
    if contains_char(v, start, end, '/') || contains_char(v, start, end, '\0') {
        return false;
    }
    if end - start == 1 && v[start] == '.' {
        assert(part =~= seq!['.']);
        return false;
    }
    if end - start == 2 && v[start] == '.' && v[start + 1] == '.' {
        assert(part =~= seq!['.', '.']);
        return false;
    }
    proof {
        if part == seq!['.'] {
            assert(part.len() == 1 && part[0] == '.');
        }
        if part == seq!['.', '.'] {
            assert(part.len() == 2 && part[0] == '.' && part[1] == '.');
        }
    }
    true
}

/// Whether the first `n` characters of `v` form a pure path.
pub(crate) fn is_pure_path_chars(v: &Vec<char>, n: usize) -> (b: bool)
    requires
        n <= v.len(),
    ensures
        b == is_pure_path(v@.take(n as int)),
{
    let ghost whole = v@.take(n as int);
    let mut i: usize = 0;
    let mut start: usize = 0;
    proof {
        assert(v@.take(0) =~= Seq::<char>::empty());
        assert(v@.subrange(0, 0) =~= Seq::<char>::empty());
        assert(segments(v@.take(0)) == seq![Seq::<char>::empty()]);
    }
    while i < n
        invariant
            start <= i <= n <= v.len(),
            whole == v@.take(n as int),
            segments(v@.take(i as int)).len() >= 1,
            segments(v@.take(i as int)).last() == v@.subrange(start as int, i as int),
            all_components(segments(v@.take(i as int)).drop_last()),
        decreases n - i,
    {
        let ghost pre = v@.take(i as int);
        let ghost nxt = v@.take(i + 1);
        proof {
            assert(nxt.drop_last() == pre);
            assert(nxt.last() == v@[i as int]);
            lemma_segments_nonempty(nxt);
        }
        if v[i] == '/' {
            if !is_component_chars(v, start, i) {
                proof {
                    let rest = v@.subrange(i + 1, n as int);
                    assert(whole =~= pre + seq!['/'] + rest);
                    lemma_segments_concat(pre, rest);
                    let k = segments(pre).len() - 1;
                    assert(segments(whole)[k] == segments(pre)[k]);
                    assert(!is_component(segments(whole)[k]));
                }
                return false;
            }
            proof {
                let done = segments(nxt).drop_last();
                assert(done == segments(pre));
                assert forall|k: int| 0 <= k < done.len() implies is_component(
                    #[trigger] done[k],
                ) by {
                    if k < done.len() - 1 {
                        assert(done[k] == segments(pre).drop_last()[k]);
                    }
                }
                assert(v@.subrange(i + 1, i + 1) =~= Seq::<char>::empty());
            }
            start = i + 1;
        } else {
            proof {
                assert(segments(nxt).drop_last() == segments(pre).drop_last());
                assert(v@.subrange(start as int, i as int).push(v@[i as int]) =~= v@.subrange(
                    start as int,
                    i + 1,
                ));
            }
        }
        i += 1;
    }
    let ok = is_component_chars(v, start, n);
    proof {
        let segs = segments(whole);
        if ok {
            assert forall|k: int| 0 <= k < segs.len() implies is_component(#[trigger] segs[k]) by {
                if k < segs.len() - 1 {
                    assert(segs[k] == segs.drop_last()[k]);
                }
            }
        } else {
            assert(!is_component(segs[segs.len() - 1]));
        }
    }
    ok
}

/// The place of the last forward slash among the first `n` characters of `v`.
pub(crate) fn last_slash(v: &Vec<char>, n: usize) -> (r: Option<usize>)
    requires
        n <= v.len(),
    ensures
        match r {
            Some(i) => i < n && v@[i as int] == '/' && !v@.subrange(i + 1, n as int).contains('/'),
            None => !v@.take(n as int).contains('/'),
        },
{
    let mut i: usize = n;
    while i > 0
        invariant
            i <= n <= v.len(),
            !v@.subrange(i as int, n as int).contains('/'),
        decreases i,
    {
        if v[i - 1] == '/' {
            return Some(i - 1);
        }
        proof {
            let old_part = v@.subrange(i as int, n as int);
            let new_part = v@.subrange(i - 1, n as int);
            if new_part.contains('/') {
                let k = choose|k: int| 0 <= k < new_part.len() && new_part[k] == '/';
                assert(k > 0);
                assert(old_part[k - 1] == '/');
            }
        }
        i -= 1;
    }
    assert(v@.subrange(0, n as int) == v@.take(n as int));
    None
}

/// Whether `v` begins with `w`.
pub(crate) fn is_prefix_chars(w: &Vec<char>, v: &Vec<char>) -> (b: bool)
    ensures
        b == w@.is_prefix_of(v@),
{
    if w.len() > v.len() {
        return false;
    }
    let mut i: usize = 0;
    while i < w.len()
        invariant
            i <= w.len() <= v.len(),
            forall|k: int| 0 <= k < i ==> w@[k] == v@[k],
        decreases w.len() - i,
    {
        if w[i] != v[i] {
            assert(v@.subrange(0, w@.len() as int)[i as int] != w@[i as int]);
            return false;
        }
        i += 1;
    }
    assert(w@ =~= v@.subrange(0, w@.len() as int));
    true
}

/// Whether two strings hold the same characters.
pub fn same_text(a: &str, b: &str) -> (same: bool)
    ensures
        same == (a@ == b@),
{
    let v = chars_of(a);
    let w = chars_of(b);
    let same = v.len() == w.len() && is_prefix_chars(&v, &w);
    proof {
        if v.len() == w.len() {
            assert(w@.subrange(0, v@.len() as int) =~= w@);
        }
    }
    same
}

} // verus!
