//! The grammar of normalized paths, stated over sequences of characters.

use vstd::prelude::*;

verus! {

/// A single path segment: nonempty, free of `/` and NUL, and neither `.` nor
/// `..`.
pub open spec fn is_component(s: Seq<char>) -> bool {
    &&& s.len() > 0
    &&& !s.contains('/')
    &&& !s.contains('\0')
    &&& s != seq!['.']
    &&& s != seq!['.', '.']
}

/// The pieces of `s` between its forward slashes.  There is always at least
/// one piece; a piece is empty where two slashes meet or where `s` begins or
/// ends with a slash.
pub open spec fn segments(s: Seq<char>) -> Seq<Seq<char>>
    decreases s.len(),
{
    if s.len() == 0 {
        seq![Seq::<char>::empty()]
    } else {
        let init = segments(s.drop_last());
        if s.last() == '/' {
            init.push(Seq::<char>::empty())
        } else {
            init.drop_last().push(init.last().push(s.last()))
        }
    }
}

/// The segments written out with one forward slash between neighbours.
pub open spec fn joined(segs: Seq<Seq<char>>) -> Seq<char>
    decreases segs.len(),
{
    if segs.len() == 0 {
        Seq::<char>::empty()
    } else if segs.len() == 1 {
        segs[0]
    } else {
        joined(segs.drop_last()) + seq!['/'] + segs.last()
    }
}

pub open spec fn all_components(segs: Seq<Seq<char>>) -> bool {
    forall|i: int| 0 <= i < segs.len() ==> is_component(#[trigger] segs[i])
}

/// A normalized file-like path: every segment is a component.  Such a path is
/// nonempty and neither begins nor ends with a slash.
pub open spec fn is_pure_path(s: Seq<char>) -> bool {
    all_components(segments(s))
}

/// A normalized directory path: a pure path followed by one forward slash.
pub open spec fn is_pure_dir_path(s: Seq<char>) -> bool {
    &&& s.len() > 0
    &&& s.last() == '/'
    &&& is_pure_path(s.drop_last())
}

pub proof fn lemma_segments_nonempty(s: Seq<char>)
    ensures
        segments(s).len() >= 1,
    decreases s.len(),
{
    if s.len() > 0 {
        lemma_segments_nonempty(s.drop_last());
    }
}

/// Splitting distributes over a slash: the segments of `a/b` are those of `a`
/// followed by those of `b`.
pub proof fn lemma_segments_concat(a: Seq<char>, b: Seq<char>)
    ensures
        segments(a + seq!['/'] + b) == segments(a) + segments(b),
    decreases b.len(),
{
    let whole = a + seq!['/'] + b;
    lemma_segments_nonempty(a);
    if b.len() == 0 {
        assert(whole.drop_last() == a);
        assert(segments(b) == seq![Seq::<char>::empty()]);
        assert(segments(whole) == segments(a).push(Seq::<char>::empty()));
        assert(segments(a).push(Seq::<char>::empty()) == segments(a) + segments(b));
    } else {
        let b0 = b.drop_last();
        lemma_segments_concat(a, b0);
        lemma_segments_nonempty(b0);
        assert(whole.drop_last() == a + seq!['/'] + b0);
        assert(whole.last() == b.last());
        let x = segments(a) + segments(b0);
        assert(x.last() == segments(b0).last());
        assert(x.drop_last() == segments(a) + segments(b0).drop_last());
        if b.last() == '/' {
            assert(x.push(Seq::<char>::empty()) == segments(a) + segments(b0).push(
                Seq::<char>::empty(),
            ));
        } else {
            let tail = segments(b0).last().push(b.last());
            assert(x.drop_last().push(tail) == segments(a) + segments(b0).drop_last().push(tail));
        }
    }
}

/// Text without a slash is one segment.
pub proof fn lemma_segments_single(s: Seq<char>)
    requires
        !s.contains('/'),
    ensures
        segments(s) == seq![s],
    decreases s.len(),
{
    if s.len() == 0 {
        assert(s == Seq::<char>::empty());
    } else {
        let s0 = s.drop_last();
        assert(!s0.contains('/')) by {
            if s0.contains('/') {
                let i = choose|i: int| 0 <= i < s0.len() && s0[i] == '/';
                assert(s[i] == '/');
            }
        }
        lemma_segments_single(s0);
        assert(s.last() != '/') by {
            assert(s[s.len() - 1] == s.last());
        }
        assert(seq![s0].drop_last().push(seq![s0].last().push(s.last())) == seq![s]) by {
            assert(s0.push(s.last()) == s);
        }
    }
}

/// No segment holds a slash.
pub proof fn lemma_segments_slash_free(s: Seq<char>)
    ensures
        forall|i: int| 0 <= i < segments(s).len() ==> !(#[trigger] segments(s)[i]).contains('/'),
    decreases s.len(),
{
    if s.len() > 0 {
        lemma_segments_slash_free(s.drop_last());
        lemma_segments_nonempty(s.drop_last());
        let init = segments(s.drop_last());
        if s.last() != '/' {
            let grown = init.last().push(s.last());
            assert(!grown.contains('/')) by {
                if grown.contains('/') {
                    let i = choose|i: int| 0 <= i < grown.len() && grown[i] == '/';
                    if i < init.last().len() {
                        assert(init.last()[i] == '/');
                        assert(init[init.len() - 1].contains('/'));
                    }
                }
            }
        }
    }
}

/// Joining the segments of a text gives the text back.
pub proof fn lemma_joined_segments(s: Seq<char>)
    ensures
        joined(segments(s)) == s,
    decreases s.len(),
{
    if s.len() == 0 {
        assert(joined(seq![Seq::<char>::empty()]) == Seq::<char>::empty());
    } else {
        let s0 = s.drop_last();
        let init = segments(s0);
        lemma_joined_segments(s0);
        lemma_segments_nonempty(s0);
        let segs = segments(s);
        if s.last() == '/' {
            assert(segs.drop_last() == init);
            assert(joined(segs) == joined(init) + seq!['/'] + Seq::<char>::empty());
            assert(joined(segs) == s);
        } else {
            let tail = init.last().push(s.last());
            assert(segs == init.drop_last().push(tail));
            if init.len() == 1 {
                assert(segs.len() == 1);
                assert(joined(segs) == tail);
                assert(joined(init) == init[0]);
                assert(tail == s);
            } else {
                assert(segs.drop_last() == init.drop_last());
                assert(joined(segs) == joined(init.drop_last()) + seq!['/'] + tail);
                assert(joined(init) == joined(init.drop_last()) + seq!['/'] + init.last());
                assert(joined(init.drop_last()) + seq!['/'] + tail =~= s0.push(s.last()));
                assert(s0.push(s.last()) == s);
            }
        }
    }
}

/// Splitting a joined list of slash-free segments gives the list back.
pub proof fn lemma_segments_joined(segs: Seq<Seq<char>>)
    requires
        segs.len() >= 1,
        forall|i: int| 0 <= i < segs.len() ==> !(#[trigger] segs[i]).contains('/'),
    ensures
        segments(joined(segs)) == segs,
    decreases segs.len(),
{
    if segs.len() == 1 {
        lemma_segments_single(segs[0]);
        assert(seq![segs[0]] == segs);
    } else {
        let init = segs.drop_last();
        lemma_segments_joined(init);
        lemma_segments_concat(joined(init), segs.last());
        lemma_segments_single(segs.last());
        assert(init + seq![segs.last()] == segs);
    }
}

/// The last segment of a pure path: its name.
pub open spec fn path_name(s: Seq<char>) -> Seq<char> {
    segments(s).last()
}

/// The directory that holds a pure path: the path without its last segment,
/// followed by a slash.  A path of one segment has none.
pub open spec fn path_parent(s: Seq<char>) -> Option<Seq<char>> {
    if segments(s).len() <= 1 {
        None
    } else {
        Some(joined(segments(s).drop_last()) + seq!['/'])
    }
}

/// The segments of a directory path, without the empty piece after its
/// final slash.
pub open spec fn dir_segments(s: Seq<char>) -> Seq<Seq<char>> {
    segments(s.drop_last())
}

/// The last segment of a directory path.
pub open spec fn dir_name(s: Seq<char>) -> Seq<char> {
    path_name(s.drop_last())
}

/// The directory path without its last segment; none where it has only one.
pub open spec fn dir_parent(s: Seq<char>) -> Option<Seq<char>> {
    path_parent(s.drop_last())
}

/// What is left of `s` once the leading `base` is taken off, provided that
/// `s` begins with `base` and is longer.
pub open spec fn relative(s: Seq<char>, base: Seq<char>) -> Option<Seq<char>> {
    if base.is_prefix_of(s) && base.len() < s.len() {
        Some(s.skip(base.len() as int))
    } else {
        None
    }
}

/// Where the last slash of `x` stands at `i`, the segments of `x` are those
/// before the slash followed by the text after it.
pub proof fn lemma_segments_at_last_slash(x: Seq<char>, i: int)
    requires
        0 <= i < x.len(),
        x[i] == '/',
        !x.subrange(i + 1, x.len() as int).contains('/'),
    ensures
        segments(x) == segments(x.take(i)).push(x.subrange(i + 1, x.len() as int)),
        path_name(x) == x.subrange(i + 1, x.len() as int),
        path_parent(x) == Some(x.take(i + 1)),
{
    let head = x.take(i);
    let tail = x.subrange(i + 1, x.len() as int);
    assert(x =~= head + seq!['/'] + tail);
    lemma_segments_concat(head, tail);
    lemma_segments_single(tail);
    lemma_segments_nonempty(head);
    assert(segments(head) + seq![tail] =~= segments(head).push(tail));
    assert(segments(x).drop_last() == segments(head));
    lemma_joined_segments(head);
    assert(head + seq!['/'] =~= x.take(i + 1));
}

/// A text without a slash is its own name and has no parent.
pub proof fn lemma_segments_without_slash(x: Seq<char>)
    requires
        !x.contains('/'),
    ensures
        path_name(x) == x,
        path_parent(x) is None,
{
    lemma_segments_single(x);
}

/// Every prefix of a pure path that ends just before a slash is a pure path.
pub proof fn lemma_pure_path_prefix(x: Seq<char>, i: int)
    requires
        is_pure_path(x),
        0 <= i < x.len(),
        x[i] == '/',
    ensures
        is_pure_path(x.take(i)),
        is_pure_path(x.skip(i + 1)),
{
    let head = x.take(i);
    let tail = x.skip(i + 1);
    assert(x =~= head + seq!['/'] + tail);
    lemma_segments_concat(head, tail);
    assert forall|k: int| 0 <= k < segments(head).len() implies is_component(
        #[trigger] segments(head)[k],
    ) by {
        assert(segments(x)[k] == segments(head)[k]);
    }
    assert forall|k: int| 0 <= k < segments(tail).len() implies is_component(
        #[trigger] segments(tail)[k],
    ) by {
        assert(segments(x)[segments(head).len() + k] == segments(tail)[k]);
    }
}

/// Two pure paths with a slash between them form a pure path.
pub proof fn lemma_pure_path_concat(a: Seq<char>, b: Seq<char>)
    requires
        is_pure_path(a),
        is_pure_path(b),
    ensures
        is_pure_path(a + seq!['/'] + b),
{
    lemma_segments_concat(a, b);
}

/// A component is a pure path of one segment.
pub proof fn lemma_component_is_pure_path(c: Seq<char>)
    requires
        is_component(c),
    ensures
        is_pure_path(c),
        segments(c) == seq![c],
{
    lemma_segments_single(c);
}

/// A directory path followed by a pure path is a pure path.
pub proof fn lemma_join_file(d: Seq<char>, f: Seq<char>)
    requires
        is_pure_dir_path(d),
        is_pure_path(f),
    ensures
        is_pure_path(d + f),
        segments(d + f) == dir_segments(d) + segments(f),
{
    let a = d.drop_last();
    assert(d + f =~= a + seq!['/'] + f);
    lemma_segments_concat(a, f);
}

/// A directory path followed by a directory path is a directory path.
pub proof fn lemma_join_dir(d: Seq<char>, e: Seq<char>)
    requires
        is_pure_dir_path(d),
        is_pure_dir_path(e),
    ensures
        is_pure_dir_path(d + e),
        dir_segments(d + e) == dir_segments(d) + dir_segments(e),
{
    lemma_join_file(d, e.drop_last());
    assert((d + e).drop_last() =~= d + e.drop_last());
}

/// What remains of a directory path behind a leading directory path is a
/// directory path.
pub proof fn lemma_relative_dir(s: Seq<char>, base: Seq<char>)
    requires
        is_pure_dir_path(s),
        is_pure_dir_path(base),
        relative(s, base) is Some,
    ensures
        is_pure_dir_path(relative(s, base)->0),
        base + relative(s, base)->0 == s,
        dir_segments(s) == dir_segments(base) + dir_segments(relative(s, base)->0),
{
    let rest = s.skip(base.len() as int);
    let i = base.len() - 1;
    assert(s =~= base + rest);
    assert(s[i] == base[i]);
    lemma_pure_path_prefix(s.drop_last(), i);
    assert(s.drop_last().skip(i + 1) =~= rest.drop_last());
    assert(s.drop_last().take(i) =~= base.drop_last());
    assert(s.drop_last() =~= base.drop_last() + seq!['/'] + rest.drop_last());
    lemma_segments_concat(base.drop_last(), rest.drop_last());
}

/// What remains of a pure path behind a leading directory path is a pure
/// path.
pub proof fn lemma_relative_file(s: Seq<char>, base: Seq<char>)
    requires
        is_pure_path(s),
        is_pure_dir_path(base),
        relative(s, base) is Some,
    ensures
        is_pure_path(relative(s, base)->0),
        base + relative(s, base)->0 == s,
{
    let rest = s.skip(base.len() as int);
    let i = base.len() - 1;
    assert(s =~= base + rest);
    assert(s[i] == base[i]);
    lemma_pure_path_prefix(s, i);
}

} // verus!
