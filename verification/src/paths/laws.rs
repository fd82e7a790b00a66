//! What holds of every normalized path.

use crate::paths::segments::{
    all_components, dir_name, dir_parent, dir_segments, is_component, is_pure_dir_path,
    is_pure_path, joined, lemma_joined_segments, lemma_pure_path_prefix, lemma_relative_dir,
    lemma_segments_concat, lemma_segments_joined, lemma_segments_nonempty,
    lemma_segments_slash_free, relative, segments,
};
use vstd::prelude::*;

verus! {

/// A character other than the slash that occurs in a text occurs in one of
/// its segments.
pub proof fn lemma_segments_cover(x: Seq<char>, c: char)
    requires
        x.contains(c),
        c != '/',
    ensures
        exists|k: int| 0 <= k < segments(x).len() && (#[trigger] segments(x)[k]).contains(c),
    decreases x.len(),
{
    let x0 = x.drop_last();
    let init = segments(x0);
    lemma_segments_nonempty(x0);
    let at = choose|i: int| 0 <= i < x.len() && x[i] == c;
    if at == x.len() - 1 {
        let k = segments(x).len() - 1;
        let grown = init.last().push(c);
        assert(grown[grown.len() - 1] == c);
        assert(segments(x)[k] == grown);
    } else {
        assert(x0[at] == c);
        lemma_segments_cover(x0, c);
        let k0 = choose|k: int| 0 <= k < init.len() && (#[trigger] init[k]).contains(c);
        if x.last() == '/' {
            assert(segments(x)[k0] == init[k0]);
        } else if k0 < init.len() - 1 {
            assert(segments(x)[k0] == init[k0]);
        } else {
            let grown = init.last().push(x.last());
            let j = choose|j: int| 0 <= j < init[k0].len() && init[k0][j] == c;
            assert(grown[j] == c);
            assert(segments(x)[k0] == grown);
        }
    }
}

/// A text that begins with a slash has an empty first segment.
pub proof fn lemma_leading_slash(x: Seq<char>)
    requires
        x.len() > 0,
        x[0] == '/',
    ensures
        segments(x)[0] == Seq::<char>::empty(),
        !is_pure_path(x),
{
    let none = Seq::<char>::empty();
    assert(x =~= none + seq!['/'] + x.skip(1));
    lemma_segments_concat(none, x.skip(1));
    lemma_segments_nonempty(x.skip(1));
    assert(segments(none) == seq![none]);
    assert(!is_component(segments(x)[0]));
}

/// The segments of several joined lists: joining `a` and `b` one after the
/// other is joining each and putting a slash between.
pub proof fn lemma_joined_concat(a: Seq<Seq<char>>, b: Seq<Seq<char>>)
    requires
        a.len() >= 1,
        b.len() >= 1,
    ensures
        joined(a + b) == joined(a) + seq!['/'] + joined(b),
    decreases b.len(),
{
    let ab = a + b;
    assert(ab.drop_last() =~= a + b.drop_last());
    assert(ab.last() == b.last());
    if b.len() == 1 {
        assert(a + b.drop_last() =~= a);
    } else {
        lemma_joined_concat(a, b.drop_last());
        assert(joined(a) + seq!['/'] + joined(b.drop_last()) + seq!['/'] + b.last() =~= joined(a)
            + seq!['/'] + (joined(b.drop_last()) + seq!['/'] + b.last()));
    }
}

/// The grammar of directory paths: a text is a directory path exactly when
/// it is one or more components written one after the other, each followed
/// by a forward slash.
pub proof fn law_dir_path_grammar(s: Seq<char>)
    ensures
        is_pure_dir_path(s) <==> exists|segs: Seq<Seq<char>>|
            segs.len() >= 1 && all_components(segs) && s == #[trigger] joined(segs) + seq!['/'],
{
    if is_pure_dir_path(s) {
        let segs = dir_segments(s);
        lemma_segments_nonempty(s.drop_last());
        lemma_joined_segments(s.drop_last());
        assert(s =~= joined(segs) + seq!['/']);
    }
    if exists|segs: Seq<Seq<char>>|
        segs.len() >= 1 && all_components(segs) && s == #[trigger] joined(segs) + seq!['/'] {
        let segs = choose|segs: Seq<Seq<char>>|
            segs.len() >= 1 && all_components(segs) && s == #[trigger] joined(segs) + seq!['/'];
        lemma_segments_joined(segs);
        assert(s.drop_last() =~= joined(segs));
    }
}

/// The grammar of pure paths: a text is a pure path exactly when it is one
/// or more components with a forward slash between neighbours.
pub proof fn law_pure_path_grammar(s: Seq<char>)
    ensures
        is_pure_path(s) <==> exists|segs: Seq<Seq<char>>|
            segs.len() >= 1 && all_components(segs) && s == #[trigger] joined(segs),
{
    if is_pure_path(s) {
        lemma_segments_nonempty(s);
        lemma_joined_segments(s);
    }
    if exists|segs: Seq<Seq<char>>|
        segs.len() >= 1 && all_components(segs) && s == #[trigger] joined(segs) {
        let segs = choose|segs: Seq<Seq<char>>|
            segs.len() >= 1 && all_components(segs) && s == #[trigger] joined(segs);
        lemma_segments_joined(segs);
    }
}

/// What no directory path is or holds: it is not empty and not the lone
/// slash, it has no leading slash, it does not lack the final slash, and it
/// holds no two slashes in a row, no NUL and no `.` or `..` segment.
pub proof fn law_dir_path_rejects(s: Seq<char>)
    requires
        is_pure_dir_path(s),
    ensures
        s.len() >= 2,
        s != seq!['/'],
        s[0] != '/',
        s.last() == '/',
        forall|i: int| 0 <= i < s.len() - 1 && (#[trigger] s[i]) == '/' ==> s[i + 1] != '/',
        !s.contains('\0'),
        forall|k: int|
            0 <= k < dir_segments(s).len() ==> {
                &&& (#[trigger] dir_segments(s)[k]).len() > 0
                &&& dir_segments(s)[k] != seq!['.']
                &&& dir_segments(s)[k] != seq!['.', '.']
            },
{
    let x = s.drop_last();
    lemma_segments_nonempty(x);
    if x.len() == 0 {
        assert(!is_component(segments(x)[0]));
    }
    if s[0] == '/' {
        lemma_leading_slash(x);
    }
    assert forall|i: int| 0 <= i < s.len() - 1 && (#[trigger] s[i]) == '/' implies s[i + 1] != '/' by {
        if s[i + 1] == '/' {
            if i + 1 < x.len() {
                lemma_pure_path_prefix(x, i);
                lemma_leading_slash(x.skip(i + 1));
            } else {
                assert(x.last() == '/');
                assert(!is_component(segments(x)[segments(x).len() - 1]));
            }
        }
    }
    if s.contains('\0') {
        let at = choose|i: int| 0 <= i < s.len() && s[i] == '\0';
        assert(x[at] == '\0');
        lemma_segments_cover(x, '\0');
    }
}

/// What no pure path is or holds: it is not empty, it neither begins nor
/// ends with a slash, and it holds no two slashes in a row and no NUL.
pub proof fn law_pure_path_rejects(s: Seq<char>)
    requires
        is_pure_path(s),
    ensures
        s.len() >= 1,
        s[0] != '/',
        s.last() != '/',
        forall|i: int| 0 <= i < s.len() - 1 && (#[trigger] s[i]) == '/' ==> s[i + 1] != '/',
        !s.contains('\0'),
{
    lemma_segments_nonempty(s);
    if s.len() == 0 {
        assert(!is_component(segments(s)[0]));
    } else {
        if s[0] == '/' {
            lemma_leading_slash(s);
        }
        if s.last() == '/' {
            assert(!is_component(segments(s)[segments(s).len() - 1]));
        }
    }
    assert forall|i: int| 0 <= i < s.len() - 1 && (#[trigger] s[i]) == '/' implies s[i + 1] != '/' by {
        if s[i + 1] == '/' {
            lemma_pure_path_prefix(s, i);
            lemma_leading_slash(s.skip(i + 1));
        }
    }
    if s.contains('\0') {
        lemma_segments_cover(s, '\0');
    }
}

/// A directory path has no parent exactly when it has one segment.
/// Otherwise its parent is a directory path that lacks exactly the last
/// segment: the parent, the name and a slash make up the path again.
pub proof fn law_dir_parent(s: Seq<char>)
    requires
        is_pure_dir_path(s),
    ensures
        dir_parent(s) is None <==> dir_segments(s).len() == 1,
        dir_parent(s) matches Some(p) ==> {
            &&& is_pure_dir_path(p)
            &&& p + dir_name(s) + seq!['/'] == s
            &&& dir_segments(p) == dir_segments(s).drop_last()
        },
{
    let x = s.drop_last();
    let segs = segments(x);
    lemma_segments_nonempty(x);
    if segs.len() > 1 {
        let init = segs.drop_last();
        let p = joined(init) + seq!['/'];
        lemma_segments_slash_free(x);
        assert forall|i: int| 0 <= i < init.len() implies !(#[trigger] init[i]).contains('/') by {
            assert(init[i] == segs[i]);
        }
        lemma_segments_joined(init);
        lemma_joined_segments(x);
        assert(p.drop_last() =~= joined(init));
        assert(p + segs.last() + seq!['/'] =~= x.push('/'));
        assert(x.push('/') =~= s);
        assert forall|i: int| 0 <= i < init.len() implies is_component(#[trigger] init[i]) by {
            assert(init[i] == segs[i]);
        }
    }
}

/// Whether the segments of `base` are the first segments of `s`, and `s` has
/// more.
pub open spec fn is_ancestor(base: Seq<char>, s: Seq<char>) -> bool {
    &&& dir_segments(base).len() < dir_segments(s).len()
    &&& dir_segments(base).is_prefix_of(dir_segments(s))
}

/// A directory path is not relative to itself.  It is relative to another
/// exactly when the other is a true ancestor of it, and what is left is then
/// the directory path that, joined to the ancestor, gives the path back.
pub proof fn law_relative_to(s: Seq<char>, base: Seq<char>)
    requires
        is_pure_dir_path(s),
        is_pure_dir_path(base),
    ensures
        relative(s, s) is None,
        relative(s, base) is Some <==> is_ancestor(base, s),
        relative(s, base) matches Some(r) ==> is_pure_dir_path(r) && base + r == s,
{
    let sx = s.drop_last();
    let bx = base.drop_last();
    lemma_segments_nonempty(sx);
    lemma_segments_nonempty(bx);
    if relative(s, base) is Some {
        lemma_relative_dir(s, base);
        let r = relative(s, base)->0;
        lemma_segments_nonempty(r.drop_last());
        assert(dir_segments(s).subrange(0, dir_segments(base).len() as int) =~= dir_segments(
            base,
        ));
    }
    if is_ancestor(base, s) {
        let head = dir_segments(base);
        let tail = dir_segments(s).skip(head.len() as int);
        assert(dir_segments(s) =~= head + tail);
        lemma_joined_concat(head, tail);
        lemma_joined_segments(sx);
        lemma_joined_segments(bx);
        assert(s =~= sx.push('/'));
        assert(base =~= bx.push('/'));
        assert(s =~= base + (joined(tail) + seq!['/']));
        assert(base =~= s.subrange(0, base.len() as int));
    }
}

} // verus!
