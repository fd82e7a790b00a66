//! The addresses that the gateway serves, and the grammar that maps the
//! segments of a request path onto them.

use crate::dav::ids::{
    is_dandiset_id, is_published_version_id, DandisetId, PublishedVersionId,
};
use crate::paths::component::Component;
use crate::paths::dirpath::PureDirPath;
use crate::paths::purepath::{component_texts, PurePath};
use crate::paths::segments::{all_components, joined, lemma_segments_concat, segments};
use crate::dav::words::{
    lemma_dandisets_component, lemma_draft_component, lemma_latest_component,
};
use crate::paths::text::{chars_of, is_component_chars, same_text};
use vstd::prelude::*;
use vstd::slice::slice_subrange;

verus! {

/// A selector for a version of a Dandiset.
#[derive(Debug)]
pub enum VersionSpec {
    /// The draft version.
    Draft,
    /// The published version with the given identifier.
    Published(PublishedVersionId),
    /// The most recently published version.
    Latest,
}

/// A [`VersionSpec`] as plain text.
pub enum VersionSpecView {
    Draft,
    Published(Seq<char>),
    Latest,
}

impl View for VersionSpec {
    type V = VersionSpecView;

    open spec fn view(&self) -> VersionSpecView {
        match self {
            VersionSpec::Draft => VersionSpecView::Draft,
            VersionSpec::Published(v) => VersionSpecView::Published(v@),
            VersionSpec::Latest => VersionSpecView::Latest,
        }
    }
}

impl Clone for VersionSpec {
    fn clone(&self) -> (v: Self)
        ensures
            v == *self,
    {
        match self {
            VersionSpec::Draft => VersionSpec::Draft,
            VersionSpec::Published(p) => VersionSpec::Published(p.clone()),
            VersionSpec::Latest => VersionSpec::Latest,
        }
    }
}

/// A concrete version of a Dandiset, as the archive knows it.
#[derive(Debug)]
pub enum VersionId {
    /// The draft version.
    Draft,
    /// A published version.
    Published(PublishedVersionId),
}

/// A [`VersionId`] as plain text.
pub enum VersionIdView {
    Draft,
    Published(Seq<char>),
}

impl View for VersionId {
    type V = VersionIdView;

    open spec fn view(&self) -> VersionIdView {
        match self {
            VersionId::Draft => VersionIdView::Draft,
            VersionId::Published(v) => VersionIdView::Published(v@),
        }
    }
}

impl Clone for VersionId {
    fn clone(&self) -> (v: Self)
        ensures
            v == *self,
    {
        match self {
            VersionId::Draft => VersionId::Draft,
            VersionId::Published(p) => VersionId::Published(p.clone()),
        }
    }
}

/// The version that a path segment selects: `draft`, `latest`, or the
/// identifier of a published version.
pub open spec fn version_spec_of(s: Seq<char>) -> Option<VersionSpecView> {
    if s == "draft"@ {
        Some(VersionSpecView::Draft)
    } else if s == "latest"@ {
        Some(VersionSpecView::Latest)
    } else if is_published_version_id(s) {
        Some(VersionSpecView::Published(s))
    } else {
        None
    }
}

/// The path segment that selects a version.
pub open spec fn version_spec_text(v: VersionSpecView) -> Seq<char> {
    match v {
        VersionSpecView::Draft => "draft"@,
        VersionSpecView::Published(p) => p,
        VersionSpecView::Latest => "latest"@,
    }
}

impl VersionSpec {
    /// The version that the path segment `c` selects, if any.
    pub fn from_component(c: &Component) -> (r: Option<VersionSpec>)
        ensures
            match r {
                Some(v) => version_spec_of(c@) == Some(v@),
                None => version_spec_of(c@) is None,
            },
    {
        let s = c.as_str();
        if same_text(s, "draft") {
            Some(VersionSpec::Draft)
        } else if same_text(s, "latest") {
            Some(VersionSpec::Latest)
        } else {
            match PublishedVersionId::parse(s) {
                Ok(v) => Some(VersionSpec::Published(v)),
                Err(_) => None,
            }
        }
    }

    /// The path segment that selects this version.
    pub fn to_component(&self) -> (c: Component)
        ensures
            c@ == version_spec_text(self@),
    {
        match self {
            VersionSpec::Draft => {
                proof {
                    lemma_draft_component();
                }
                Component::from_valid("draft".to_owned())
            },
            VersionSpec::Published(v) => v.to_component(),
            VersionSpec::Latest => {
                proof {
                    lemma_latest_component();
                }
                Component::from_valid("latest".to_owned())
            },
        }
    }
}

/// The address of a resource that the gateway serves.
#[derive(Debug)]
pub enum DavPath {
    /// The root of the hierarchy.
    Root,
    /// The list of all Dandisets, at `dandisets/`.
    DandisetIndex,
    /// One Dandiset.
    Dandiset { dandiset_id: DandisetId },
    /// The list of the published versions of a Dandiset.
    DandisetReleases { dandiset_id: DandisetId },
    /// The top of a version of a Dandiset.
    Version { dandiset_id: DandisetId, version: VersionSpec },
    /// The `dandiset.yaml` file of a version.
    DandisetYaml { dandiset_id: DandisetId, version: VersionSpec },
    /// A file or directory inside a version.
    DandiResource { dandiset_id: DandisetId, version: VersionSpec, path: PurePath },
    /// The top of the Zarr manifest tree, at `zarrs/`.
    ZarrIndex,
    /// A resource inside the Zarr manifest tree.
    ZarrPath { path: PurePath },
}

/// A [`DavPath`] as plain text.
pub enum DavPathView {
    Root,
    DandisetIndex,
    Dandiset { dandiset_id: Seq<char> },
    DandisetReleases { dandiset_id: Seq<char> },
    Version { dandiset_id: Seq<char>, version: VersionSpecView },
    DandisetYaml { dandiset_id: Seq<char>, version: VersionSpecView },
    DandiResource { dandiset_id: Seq<char>, version: VersionSpecView, path: Seq<char> },
    ZarrIndex,
    ZarrPath { path: Seq<char> },
}

impl View for DavPath {
    type V = DavPathView;

    open spec fn view(&self) -> DavPathView {
        match self {
            DavPath::Root => DavPathView::Root,
            DavPath::DandisetIndex => DavPathView::DandisetIndex,
            DavPath::Dandiset { dandiset_id } => DavPathView::Dandiset {
                dandiset_id: dandiset_id@,
            },
            DavPath::DandisetReleases { dandiset_id } => DavPathView::DandisetReleases {
                dandiset_id: dandiset_id@,
            },
            DavPath::Version { dandiset_id, version } => DavPathView::Version {
                dandiset_id: dandiset_id@,
                version: version@,
            },
            DavPath::DandisetYaml { dandiset_id, version } => DavPathView::DandisetYaml {
                dandiset_id: dandiset_id@,
                version: version@,
            },
            DavPath::DandiResource { dandiset_id, version, path } => DavPathView::DandiResource {
                dandiset_id: dandiset_id@,
                version: version@,
                path: path@,
            },
            DavPath::ZarrIndex => DavPathView::ZarrIndex,
            DavPath::ZarrPath { path } => DavPathView::ZarrPath { path: path@ },
        }
    }
}

impl Clone for DavPath {
    fn clone(&self) -> (p: Self)
        ensures
            p == *self,
    {
        match self {
            DavPath::Root => DavPath::Root,
            DavPath::DandisetIndex => DavPath::DandisetIndex,
            DavPath::Dandiset { dandiset_id } => DavPath::Dandiset {
                dandiset_id: dandiset_id.clone(),
            },
            DavPath::DandisetReleases { dandiset_id } => DavPath::DandisetReleases {
                dandiset_id: dandiset_id.clone(),
            },
            DavPath::Version { dandiset_id, version } => DavPath::Version {
                dandiset_id: dandiset_id.clone(),
                version: version.clone(),
            },
            DavPath::DandisetYaml { dandiset_id, version } => DavPath::DandisetYaml {
                dandiset_id: dandiset_id.clone(),
                version: version.clone(),
            },
            DavPath::DandiResource { dandiset_id, version, path } => DavPath::DandiResource {
                dandiset_id: dandiset_id.clone(),
                version: version.clone(),
                path: path.clone(),
            },
            DavPath::ZarrIndex => DavPath::ZarrIndex,
            DavPath::ZarrPath { path } => DavPath::ZarrPath { path: path.clone() },
        }
    }
}

/// The route grammar: the address that a list of path segments names, if it
/// names one.
///
/// - no segment: the root
/// - `dandisets`: the Dandiset index
/// - `dandisets/<id>`: a Dandiset
/// - `dandisets/<id>/releases`: the releases of a Dandiset
/// - `dandisets/<id>/<version>`: a version, where `<version>` is `draft`,
///   `latest` or the identifier of a published version
/// - `dandisets/<id>/<version>/dandiset.yaml`: the metadata file of a version
/// - `dandisets/<id>/<version>/<path>`: a resource inside a version
/// - `zarrs`: the Zarr index
/// - `zarrs/<path>`: a resource in the Zarr manifest tree
pub open spec fn resolve(segs: Seq<Seq<char>>) -> Option<DavPathView> {
    if segs.len() == 0 {
        Some(DavPathView::Root)
    } else if segs[0] == "dandisets"@ {
        if segs.len() == 1 {
            Some(DavPathView::DandisetIndex)
        } else if !is_dandiset_id(segs[1]) {
            None
        } else if segs.len() == 2 {
            Some(DavPathView::Dandiset { dandiset_id: segs[1] })
        } else if segs.len() == 3 && segs[2] == "releases"@ {
            Some(DavPathView::DandisetReleases { dandiset_id: segs[1] })
        } else {
            match version_spec_of(segs[2]) {
                None => None,
                Some(version) => if segs.len() == 3 {
                    Some(DavPathView::Version { dandiset_id: segs[1], version })
                } else if segs.len() == 4 && segs[3] == "dandiset.yaml"@ {
                    Some(DavPathView::DandisetYaml { dandiset_id: segs[1], version })
                } else {
                    Some(
                        DavPathView::DandiResource {
                            dandiset_id: segs[1],
                            version,
                            path: joined(segs.skip(3)),
                        },
                    )
                },
            }
        }
    } else if segs[0] == "zarrs"@ {
        if segs.len() == 1 {
            Some(DavPathView::ZarrIndex)
        } else {
            Some(DavPathView::ZarrPath { path: joined(segs.skip(1)) })
        }
    } else {
        None
    }
}

impl DavPath {
    /// The address that the path segments `parts` name, or `None` where they
    /// name none.
    pub fn from_components(parts: Vec<Component>) -> (r: Option<DavPath>)
        ensures
            match r {
                Some(p) => resolve(component_texts(parts@)) == Some(p@),
                None => resolve(component_texts(parts@)) is None,
            },
    {
        let n = parts.len();
        let ghost segs = component_texts(parts@);
        if n == 0 {
            return Some(DavPath::Root);
        }
        let first = parts[0].as_str();
        if same_text(first, "dandisets") {
            if n == 1 {
                return Some(DavPath::DandisetIndex);
            }
            let dandiset_id = match DandisetId::parse(parts[1].as_str()) {
                Ok(id) => id,
                Err(_) => {
                    return None;
                },
            };
            if n == 2 {
                return Some(DavPath::Dandiset { dandiset_id });
            }
            if n == 3 && same_text(parts[2].as_str(), "releases") {
                return Some(DavPath::DandisetReleases { dandiset_id });
            }
            let version = match VersionSpec::from_component(&parts[2]) {
                Some(v) => v,
                None => {
                    return None;
                },
            };
            if n == 3 {
                Some(DavPath::Version { dandiset_id, version })
            } else if n == 4 && same_text(parts[3].as_str(), "dandiset.yaml") {
                Some(DavPath::DandisetYaml { dandiset_id, version })
            } else {
                let rest = slice_subrange(parts.as_slice(), 3, n);
                assert(component_texts(rest@) =~= segs.skip(3));
                match PurePath::from_components(rest) {
                    Some(path) => Some(DavPath::DandiResource { dandiset_id, version, path }),
                    None => None,
                }
            }
        } else if same_text(first, "zarrs") {
            if n == 1 {
                Some(DavPath::ZarrIndex)
            } else {
                let rest = slice_subrange(parts.as_slice(), 1, n);
                assert(component_texts(rest@) =~= segs.skip(1));
                match PurePath::from_components(rest) {
                    Some(path) => Some(DavPath::ZarrPath { path }),
                    None => None,
                }
            }
        } else {
            None
        }
    }
}

/// The nonempty ones among `segs`, in order.
pub open spec fn nonempty_pieces(segs: Seq<Seq<char>>) -> Seq<Seq<char>>
    decreases segs.len(),
{
    if segs.len() == 0 {
        Seq::<Seq<char>>::empty()
    } else if segs.last().len() > 0 {
        nonempty_pieces(segs.drop_last()).push(segs.last())
    } else {
        nonempty_pieces(segs.drop_last())
    }
}

/// The segments of a request path: the nonempty pieces between its slashes,
/// provided that each is a component.
pub open spec fn uri_segments(s: Seq<char>) -> Option<Seq<Seq<char>>> {
    let pieces = nonempty_pieces(segments(s));
    if all_components(pieces) {
        Some(pieces)
    } else {
        None
    }
}

/// Splits the path of a request URL into its segments.  Leading, trailing
/// and repeated slashes separate nothing.  `None` where a piece is no
/// component: where it is `.` or `..` or holds NUL.
pub fn split_uri_path(s: &str) -> (r: Option<Vec<Component>>)
    ensures
        match r {
            Some(parts) => uri_segments(s@) == Some(component_texts(parts@)),
            None => uri_segments(s@) is None,
        },
{
    let v = chars_of(s);
    let n = v.len();
    let mut parts: Vec<Component> = Vec::new();
    let mut i: usize = 0;
    let mut start: usize = 0;
    proof {
        assert(v@.take(0) =~= Seq::<char>::empty());
        assert(v@.subrange(0, 0) =~= Seq::<char>::empty());
        assert(segments(v@.take(0)) == seq![Seq::<char>::empty()]);
        assert(segments(v@.take(0)).drop_last() =~= Seq::<Seq<char>>::empty());
        assert(component_texts(parts@) =~= Seq::<Seq<char>>::empty());
    }
    while i < n
        invariant
            start <= i <= n,
            n == v.len(),
            v@ == s@,
            segments(v@.take(i as int)).len() >= 1,
            segments(v@.take(i as int)).last() == v@.subrange(start as int, i as int),
            component_texts(parts@) == nonempty_pieces(segments(v@.take(i as int)).drop_last()),
            all_components(component_texts(parts@)),
        decreases n - i,
    {
        let ghost pre = v@.take(i as int);
        let ghost nxt = v@.take(i + 1);
        let ghost piece = v@.subrange(start as int, i as int);
        let ghost before = component_texts(parts@);
        proof {
            assert(nxt.drop_last() == pre);
            assert(nxt.last() == v@[i as int]);
        }
        if v[i] == '/' {
            proof {
                assert(segments(pre) =~= segments(pre).drop_last().push(piece));
                assert(segments(nxt).drop_last() == segments(pre));
                assert(v@.subrange(i + 1, i + 1) =~= Seq::<char>::empty());
            }
            if start < i {
                if !is_component_chars(&v, start, i) {
                    proof {
                        let rest = v@.subrange(i as int, n as int);
                        lemma_pieces_survive(pre, rest);
                        assert(pre + rest =~= s@);
                        let bad = nonempty_pieces(segments(pre));
                        assert(bad[bad.len() - 1] == piece);
                        assert(nonempty_pieces(segments(s@))[bad.len() - 1] == piece);
                    }
                    return None;
                }
                let text = s.substring_char(start, i);
                parts.push(Component::from_valid(text.to_owned()));
                proof {
                    assert(component_texts(parts@) =~= before.push(piece));
                }
            }
            start = i + 1;
        } else {
            proof {
                assert(segments(nxt).drop_last() == segments(pre).drop_last());
                assert(piece.push(v@[i as int]) =~= v@.subrange(start as int, i + 1));
            }
        }
        i += 1;
    }
    let ghost piece = v@.subrange(start as int, n as int);
    let ghost before = component_texts(parts@);
    proof {
        assert(v@.take(n as int) =~= s@);
        assert(segments(s@) =~= segments(s@).drop_last().push(piece));
    }
    if start < n {
        if !is_component_chars(&v, start, n) {
            proof {
                let all = nonempty_pieces(segments(s@));
                assert(all == before.push(piece));
                assert(all[all.len() - 1] == piece);
            }
            return None;
        }
        let text = s.substring_char(start, n);
        parts.push(Component::from_valid(text.to_owned()));
        proof {
            assert(component_texts(parts@) =~= before.push(piece));
        }
    }
    Some(parts)
}

/// The nonempty pieces of a text that end before a slash, or at the end of
/// the text, are pieces of every text that goes on from there.
pub proof fn lemma_pieces_survive(pre: Seq<char>, rest: Seq<char>)
    requires
        rest.len() == 0 || rest[0] == '/',
    ensures
        nonempty_pieces(segments(pre)).is_prefix_of(nonempty_pieces(segments(pre + rest))),
    decreases rest.len(),
{
    let all = pre + rest;
    if rest.len() == 0 {
        assert(all =~= pre);
    } else {
        let tail = rest.skip(1);
        assert(all =~= pre + seq!['/'] + tail);
        lemma_segments_concat(pre, tail);
        lemma_pieces_concat(segments(pre), segments(tail));
    }
}

/// The nonempty pieces of two lists put together are those of the first
/// followed by those of the second.
pub proof fn lemma_pieces_concat(a: Seq<Seq<char>>, b: Seq<Seq<char>>)
    ensures
        nonempty_pieces(a + b) == nonempty_pieces(a) + nonempty_pieces(b),
    decreases b.len(),
{
    if b.len() == 0 {
        assert(a + b =~= a);
        assert(nonempty_pieces(a) + nonempty_pieces(b) =~= nonempty_pieces(a));
    } else {
        lemma_pieces_concat(a, b.drop_last());
        assert((a + b).drop_last() =~= a + b.drop_last());
        assert((a + b).last() == b.last());
        if b.last().len() > 0 {
            assert((nonempty_pieces(a) + nonempty_pieces(b.drop_last())).push(b.last())
                =~= nonempty_pieces(a) + nonempty_pieces(b.drop_last()).push(b.last()));
        }
    }
}

/// The text of the address of a version of a Dandiset:
/// `dandisets/<id>/<version>/`.
pub open spec fn version_path_text(dandiset_id: Seq<char>, version: VersionSpecView) -> Seq<char> {
    "dandisets"@ + seq!['/'] + dandiset_id + seq!['/'] + version_spec_text(version) + seq!['/']
}

/// The address of the version `version` of the Dandiset `dandiset_id`.
pub fn version_path(dandiset_id: &DandisetId, version: &VersionSpec) -> (p: PureDirPath)
    ensures
        p@ == version_path_text(dandiset_id@, version@),
{
    proof {
        lemma_dandisets_component();
    }
    let top = PureDirPath::from_component(Component::from_valid("dandisets".to_owned()));
    top.join_one_dir(&dandiset_id.to_component()).join_one_dir(&version.to_component())
}

} // verus!
