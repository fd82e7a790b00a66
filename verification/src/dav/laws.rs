//! What holds of every resolution.

use crate::dav::archive::{DandisetVersionView, DandisetView};
use crate::dav::engine::{
    children_step, release_children, resource_step, BackendCallView, BackendReplyView, StepView,
};
use crate::dav::error::{is_not_found, DavErrorView};
use crate::dav::path::{version_path_text, DavPathView, VersionIdView, VersionSpecView};
use crate::dav::types::{
    dandiset_yaml_item, rebase, rebase_all, rebase_with_children, version_collection,
    DavCollectionView, DavResourceView, DavResourceWithChildrenView, ResourceKind,
};
use crate::dav::handler::{
    final_response, handling, propfind_input, propfind_step, HandlingView,
};
use crate::dav::response::{plain_response, BodyView, ResponseView};
use crate::dav::util::{depth_of, equal_ignoring_ascii_case, FiniteDepth};
use crate::dav::xml::PropFindView;
use vstd::prelude::*;

verus! {

/// Whether `path` addresses a version of a Dandiset or something inside one.
pub open spec fn is_under_version(path: DavPathView) -> bool {
    path is Version || path is DandisetYaml || path is DandiResource
}

/// The address `path` with the version selector `version` in place of its
/// own.
pub open spec fn with_version(path: DavPathView, version: VersionSpecView) -> DavPathView {
    match path {
        DavPathView::Version { dandiset_id, .. } => DavPathView::Version { dandiset_id, version },
        DavPathView::DandisetYaml { dandiset_id, .. } => DavPathView::DandisetYaml {
            dandiset_id,
            version,
        },
        DavPathView::DandiResource { dandiset_id, path, .. } => DavPathView::DandiResource {
            dandiset_id,
            version,
            path,
        },
        other => other,
    }
}

/// The Dandiset that a path under a version belongs to.
pub open spec fn dandiset_of(path: DavPathView) -> Seq<char> {
    match path {
        DavPathView::Version { dandiset_id, .. } => dandiset_id,
        DavPathView::DandisetYaml { dandiset_id, .. } => dandiset_id,
        DavPathView::DandiResource { dandiset_id, .. } => dandiset_id,
        _ => Seq::<char>::empty(),
    }
}

/// The latest version of a Dandiset that has never been published does not
/// exist: whatever lies under `latest` resolves, as soon as the archive has
/// described the Dandiset, to an error that counts as not found.  No further
/// call is made.
pub proof fn law_latest_of_unpublished(
    path: DavPathView,
    ds: DandisetView,
    rest: Seq<BackendReplyView>,
)
    requires
        is_under_version(path),
        path == with_version(path, VersionSpecView::Latest),
        ds.most_recent_published_version is None,
    ensures
        resource_step(path, Seq::<BackendReplyView>::empty()) == StepView::<
            DavResourceView,
        >::Call(BackendCallView::GetDandiset { dandiset_id: dandiset_of(path) }),
        children_step(path, Seq::<BackendReplyView>::empty()) == StepView::<
            DavResourceWithChildrenView,
        >::Call(BackendCallView::GetDandiset { dandiset_id: dandiset_of(path) }),
        resource_step(path, seq![BackendReplyView::Dandiset(ds)] + rest) == StepView::<
            DavResourceView,
        >::Done(Err(DavErrorView::NoLatestVersion { dandiset_id: dandiset_of(path) })),
        children_step(path, seq![BackendReplyView::Dandiset(ds)] + rest) == StepView::<
            DavResourceWithChildrenView,
        >::Done(Err(DavErrorView::NoLatestVersion { dandiset_id: dandiset_of(path) })),
        is_not_found(DavErrorView::NoLatestVersion { dandiset_id: dandiset_of(path) }),
{
    let replies = seq![BackendReplyView::Dandiset(ds)] + rest;
    assert(replies[0] == BackendReplyView::Dandiset(ds));
}

/// Whether two steps are the same but for the prefix of the addresses in
/// what they resolved to: the same call, the same error, or one content
/// addressed under `first` in the one and under `second` in the other.
pub open spec fn same_but_for_prefix(
    a: StepView<DavResourceView>,
    b: StepView<DavResourceView>,
    first: Seq<char>,
    second: Seq<char>,
) -> bool {
    match (a, b) {
        (StepView::Call(x), StepView::Call(y)) => x == y,
        (StepView::Done(Err(x)), StepView::Done(Err(y))) => x == y,
        (StepView::Done(Ok(x)), StepView::Done(Ok(y))) => exists|content: DavResourceView|
            x == #[trigger] rebase(content, first) && y == rebase(content, second),
        _ => false,
    }
}

/// As [`same_but_for_prefix`], of resources with their children.
pub open spec fn same_listing_but_for_prefix(
    a: StepView<DavResourceWithChildrenView>,
    b: StepView<DavResourceWithChildrenView>,
    first: Seq<char>,
    second: Seq<char>,
) -> bool {
    match (a, b) {
        (StepView::Call(x), StepView::Call(y)) => x == y,
        (StepView::Done(Err(x)), StepView::Done(Err(y))) => x == y,
        (StepView::Done(Ok(x)), StepView::Done(Ok(y))) => exists|
            content: DavResourceWithChildrenView,
        |
            x == #[trigger] rebase_with_children(content, first) && y == rebase_with_children(
                content,
                second,
            ),
        _ => false,
    }
}

/// A version as a collection that has no address yet.
pub open spec fn unplaced_version(v: DandisetVersionView) -> DavCollectionView {
    DavCollectionView {
        path: None,
        created: Some(v.created),
        modified: Some(v.modified),
        size: Some(v.size),
        kind: ResourceKind::Version,
        metadata_url: Some(v.metadata_url),
    }
}

/// Where a Dandiset has been published, asking for something under `latest`
/// and asking for it under the identifier of the version published last
/// come to the same: after the archive has described the Dandiset, the same
/// calls are made with the same answers, and the outcomes are the same but
/// for the addresses, which begin with the version as it was asked for.
pub proof fn law_latest_is_published(
    path: DavPathView,
    ds: DandisetView,
    id: Seq<char>,
    rest: Seq<BackendReplyView>,
)
    requires
        is_under_version(path),
        ds.most_recent_published_version matches Some(v) && v.version
            == VersionIdView::Published(id),
    ensures
        same_but_for_prefix(
            resource_step(
                with_version(path, VersionSpecView::Latest),
                seq![BackendReplyView::Dandiset(ds)] + rest,
            ),
            resource_step(with_version(path, VersionSpecView::Published(id)), rest),
            version_path_text(dandiset_of(path), VersionSpecView::Latest),
            version_path_text(dandiset_of(path), VersionSpecView::Published(id)),
        ),
        same_listing_but_for_prefix(
            children_step(
                with_version(path, VersionSpecView::Latest),
                seq![BackendReplyView::Dandiset(ds)] + rest,
            ),
            children_step(with_version(path, VersionSpecView::Published(id)), rest),
            version_path_text(dandiset_of(path), VersionSpecView::Latest),
            version_path_text(dandiset_of(path), VersionSpecView::Published(id)),
        ),
{
    let replies = seq![BackendReplyView::Dandiset(ds)] + rest;
    let dandiset_id = dandiset_of(path);
    let first = version_path_text(dandiset_id, VersionSpecView::Latest);
    let second = version_path_text(dandiset_id, VersionSpecView::Published(id));
    let a = resource_step(with_version(path, VersionSpecView::Latest), replies);
    let b = resource_step(with_version(path, VersionSpecView::Published(id)), rest);
    let la = children_step(with_version(path, VersionSpecView::Latest), replies);
    let lb = children_step(with_version(path, VersionSpecView::Published(id)), rest);
    assert(replies[0] == BackendReplyView::Dandiset(ds));
    assert(replies.len() == rest.len() + 1);
    if rest.len() > 0 {
        assert(replies[1] == rest[0]);
    }
    if rest.len() > 1 {
        assert(replies[2] == rest[1]);
    }
    if rest.len() > 2 {
        assert(replies[3] == rest[2]);
    }
    match path {
        DavPathView::Version { .. } => {
            if rest.len() > 0 {
                if let BackendReplyView::Version(v) = rest[0] {
                    let col = DavResourceView::Collection(unplaced_version(v));
                    assert(a == StepView::<DavResourceView>::Done(Ok(rebase(col, first))));
                    assert(b == StepView::<DavResourceView>::Done(Ok(rebase(col, second))));
                    if rest.len() > 2 {
                        if let BackendReplyView::Resources(top) = rest[1] {
                            if let BackendReplyView::Metadata(md) = rest[2] {
                                let yaml = DavResourceView::Item(dandiset_yaml_item(md));
                                let content = DavResourceWithChildrenView::Collection {
                                    col: unplaced_version(v),
                                    children: top.push(yaml),
                                };
                                assert(rebase_all(top.push(yaml), first) =~= rebase_all(
                                    top,
                                    first,
                                ).push(rebase(yaml, first)));
                                assert(rebase_all(top.push(yaml), second) =~= rebase_all(
                                    top,
                                    second,
                                ).push(rebase(yaml, second)));
                                assert(la == StepView::<DavResourceWithChildrenView>::Done(
                                    Ok(rebase_with_children(content, first)),
                                ));
                                assert(lb == StepView::<DavResourceWithChildrenView>::Done(
                                    Ok(rebase_with_children(content, second)),
                                ));
                            }
                        }
                    }
                }
            }
        },
        DavPathView::DandisetYaml { .. } => {
            if rest.len() > 0 {
                if let BackendReplyView::Metadata(md) = rest[0] {
                    let yaml = DavResourceView::Item(dandiset_yaml_item(md));
                    assert(a == StepView::<DavResourceView>::Done(Ok(rebase(yaml, first))));
                    assert(b == StepView::<DavResourceView>::Done(Ok(rebase(yaml, second))));
                    let content = DavResourceWithChildrenView::Item(dandiset_yaml_item(md));
                    assert(la == StepView::<DavResourceWithChildrenView>::Done(
                        Ok(rebase_with_children(content, first)),
                    ));
                    assert(lb == StepView::<DavResourceWithChildrenView>::Done(
                        Ok(rebase_with_children(content, second)),
                    ));
                }
            }
        },
        DavPathView::DandiResource { .. } => {
            if rest.len() > 0 {
                if let BackendReplyView::Resource(r) = rest[0] {
                    assert(a == StepView::<DavResourceView>::Done(Ok(rebase(r, first))));
                    assert(b == StepView::<DavResourceView>::Done(Ok(rebase(r, second))));
                }
                if let BackendReplyView::ResourceWithChildren(r) = rest[0] {
                    assert(la == StepView::<DavResourceWithChildrenView>::Done(
                        Ok(rebase_with_children(r, first)),
                    ));
                    assert(lb == StepView::<DavResourceWithChildrenView>::Done(
                        Ok(rebase_with_children(r, second)),
                    ));
                }
            }
        },
        _ => {},
    }
}

/// Whether the archive describes a published version.
pub open spec fn is_published(v: DandisetVersionView) -> bool {
    v.version is Published
}

/// A published version as a child of the releases of its Dandiset,
/// addressed by its own identifier.
pub open spec fn release_child(dandiset_id: Seq<char>, v: DandisetVersionView) -> DavResourceView {
    DavResourceView::Collection(
        version_collection(
            v,
            version_path_text(dandiset_id, VersionSpecView::Published(v.version->Published_0)),
        ),
    )
}

/// The releases of a Dandiset are its published versions and no others:
/// whatever the archive's list of versions holds, and in whatever order, the
/// children are the published versions of the list, in the order of the
/// list, and no draft is among them.
pub proof fn law_releases_are_published(dandiset_id: Seq<char>, versions: Seq<DandisetVersionView>)
    ensures
        release_children(dandiset_id, versions) == versions.filter(
            |v: DandisetVersionView| is_published(v),
        ).map_values(|v: DandisetVersionView| release_child(dandiset_id, v)),
        forall|k: int|
            0 <= k < release_children(dandiset_id, versions).len() ==> exists|j: int|
                0 <= j < versions.len() && is_published(versions[j]) && #[trigger] release_children(
                    dandiset_id,
                    versions,
                )[k] == release_child(dandiset_id, #[trigger] versions[j]),
    decreases versions.len(),
{
    reveal(Seq::filter);
    let pred = |v: DandisetVersionView| is_published(v);
    let f = |v: DandisetVersionView| release_child(dandiset_id, v);
    if versions.len() > 0 {
        let init = versions.drop_last();
        let v = versions.last();
        law_releases_are_published(dandiset_id, init);
        if is_published(v) {
            assert(init.filter(pred).push(v).map_values(f) =~= init.filter(pred).map_values(
                f,
            ).push(f(v)));
        }
        let children = release_children(dandiset_id, versions);
        assert forall|k: int| 0 <= k < children.len() implies exists|j: int|
            0 <= j < versions.len() && is_published(versions[j]) && #[trigger] children[k]
                == release_child(dandiset_id, #[trigger] versions[j]) by {
            let before = release_children(dandiset_id, init);
            if k < before.len() {
                let j = choose|j: int|
                    0 <= j < init.len() && is_published(init[j]) && #[trigger] before[k]
                        == release_child(dandiset_id, #[trigger] init[j]);
                assert(versions[j] == init[j]);
                assert(children[k] == before[k]);
            } else {
                let j = versions.len() - 1;
                assert(children[k] == release_child(dandiset_id, versions[j]));
            }
        }
    } else {
        assert(versions.filter(pred).map_values(f) =~= Seq::<DavResourceView>::empty());
    }
}

/// The children of a resolved resource; an item has none.
pub open spec fn children_of(r: DavResourceWithChildrenView) -> Seq<DavResourceView> {
    match r {
        DavResourceWithChildrenView::Collection { children, .. } => children,
        DavResourceWithChildrenView::Item(_) => Seq::<DavResourceView>::empty(),
    }
}

/// A `PROPFIND` of depth zero reports one resource.  One of depth one
/// reports the resource and each of its children: one more than it has
/// children.
pub proof fn law_propfind_count(
    path: DavPathView,
    query: PropFindView,
    replies: Seq<BackendReplyView>,
)
    ensures
        propfind_step(path, FiniteDepth::Zero, query, replies) matches StepView::Done(Ok(rs))
            ==> rs.len() == 1,
        children_step(path, replies) matches StepView::Done(Ok(r)) ==> (propfind_step(
            path,
            FiniteDepth::One,
            query,
            replies,
        ) matches StepView::Done(Ok(rs)) && rs.len() == 1 + children_of(r).len()),
        propfind_step(path, FiniteDepth::One, query, replies) matches StepView::Done(Ok(rs))
            ==> (children_step(path, replies) matches StepView::Done(Ok(r)) && rs.len() == 1
            + children_of(r).len()),
{
}

/// A `Depth` header is accepted exactly when it holds `0` or `1`.  A
/// request with any other, or with none, is rejected with status 400,
/// whatever its body: no resolution begins, and so no backend is asked.
pub proof fn law_depth_must_be_finite(
    header: Option<Seq<char>>,
    body: Result<PropFindView, Seq<char>>,
)
    ensures
        depth_of(header) is Ok <==> header == Some("0"@) || header == Some("1"@),
        depth_of(header) is Err ==> (propfind_input(header, body) matches Err(resp)
            && resp.status == 400),
        propfind_input(header, body) is Ok ==> depth_of(header) is Ok,
{
}

/// Whether the headers `headers` hold the two WebDAV headers.
pub open spec fn has_webdav_headers(headers: Seq<(Seq<char>, Seq<char>)>) -> bool {
    headers.contains(("Allow"@, "GET, HEAD, OPTIONS, PROPFIND"@)) && headers.contains(
        ("DAV"@, "1, 3"@),
    )
}

/// Every final response holds the two WebDAV headers, whatever was asked
/// and however it ended, and has the status of the outcome: that of the
/// response where there is one, 404 for an error that counts as not found,
/// and 500 for any other.
pub proof fn law_final_response(outcome: Result<ResponseView, DavErrorView>)
    ensures
        has_webdav_headers(final_response(outcome).headers),
        final_response(outcome).status == (match outcome {
            Ok(r) => r.status,
            Err(e) => if is_not_found(e) {
                404u16
            } else {
                500u16
            },
        }),
{
    let r = final_response(outcome);
    let n = r.headers.len();
    assert(r.headers[n - 2] == ("Allow"@, "GET, HEAD, OPTIONS, PROPFIND"@));
    assert(r.headers[n - 1] == ("DAV"@, "1, 3"@));
}

/// `OPTIONS` is answered with 204 whatever the path, and a verb that is
/// none of `GET`, `OPTIONS` and `PROPFIND` with 405; both answers hold the
/// two WebDAV headers.
pub proof fn law_options_and_other_verbs(method: Seq<char>, uri_path: Seq<char>)
    ensures
        handling("OPTIONS"@, uri_path) == HandlingView::Respond(
            plain_response(204, BodyView::Empty),
        ),
        final_response(Ok(plain_response(204, BodyView::Empty))).status == 204,
        has_webdav_headers(final_response(Ok(plain_response(204, BodyView::Empty))).headers),
        method != "GET"@ && method != "OPTIONS"@ && !equal_ignoring_ascii_case(
            method,
            "PROPFIND"@,
        ) ==> handling(method, uri_path) == HandlingView::Respond(
            plain_response(405, BodyView::Empty),
        ),
        final_response(Ok(plain_response(405, BodyView::Empty))).status == 405,
        has_webdav_headers(final_response(Ok(plain_response(405, BodyView::Empty))).headers),
{
    law_final_response(Ok(plain_response(204, BodyView::Empty)));
    law_final_response(Ok(plain_response(405, BodyView::Empty)));
    assert("OPTIONS"@ != "GET"@) by {
        reveal_strlit("OPTIONS");
        reveal_strlit("GET");
        assert("OPTIONS"@.len() == 7);
        assert("GET"@.len() == 3);
    }
}

} // verus!
