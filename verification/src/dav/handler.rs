//! The verbs of the protocol: what a request asks for and how its outcome
//! is answered.

use crate::dav::document::{multistatus_pieces, written_xml};
use crate::dav::engine::{
    children_step, get_resource, get_resource_with_children, reply_views, resource_step, step_is,
    BackendReply, BackendReplyView, Step, StepView,
};
use crate::dav::error::{error_report, is_not_found, DavError, DavErrorView};
use crate::dav::path::{resolve, split_uri_path, uri_segments, DavPath, DavPathView};
use crate::dav::response::{
    not_found_response, plain_response, redirect_response, typed_response, with_webdav_headers,
    Body, BodyView, Response, ResponseView,
};
use crate::dav::types::{
    flattened, redirect_url, resource_views, DavContent, DavContentView, DavItem, DavResource,
    DavResourceView, DavResourceWithChildren, DavResourceWithChildrenView,
};
use crate::dav::util::{
    depth_of, eq_ignore_ascii_case, equal_ignoring_ascii_case, slice_text, DepthError,
    FiniteDepth,
};
use crate::dav::xml::{
    response_views, responses_for, DavResponseView, Multistatus, PropFind, PropFindView,
};
use crate::paths::component::Component;
use crate::paths::purepath::component_texts;
use crate::paths::text::same_text;
use vstd::prelude::*;

verus! {

/// What a request asks the gateway to do.
#[derive(Debug)]
pub enum Handling {
    /// Nothing needs resolving: this is the answer.
    Respond(Response),
    /// A `GET` of the resource at `path`.  `pathparts` holds the segments of
    /// the request path, for the breadcrumbs of a listing.
    Get { path: DavPath, pathparts: Vec<Component> },
    /// A `PROPFIND` of the resource at `path`.
    Propfind { path: DavPath },
}

/// A [`Handling`] as plain values.
pub enum HandlingView {
    Respond(ResponseView),
    Get { path: DavPathView, pathparts: Seq<Seq<char>> },
    Propfind { path: DavPathView },
}

/// The address that a request path names, if it names one.
pub open spec fn route(uri_path: Seq<char>) -> Option<DavPathView> {
    match uri_segments(uri_path) {
        Some(segs) => resolve(segs),
        None => None,
    }
}

/// What a request with the verb `method` for the path `uri_path` asks for.
///
/// `GET` and `PROPFIND` (in any case of letters) ask for the resource that
/// the path names, and are answered with 404 where it names none.  `OPTIONS`
/// is answered with 204 whatever the path.  Any other verb is answered with
/// 405.
pub open spec fn handling(method: Seq<char>, uri_path: Seq<char>) -> HandlingView {
    if method == "GET"@ {
        match route(uri_path) {
            Some(path) => HandlingView::Get { path, pathparts: uri_segments(uri_path)->0 },
            None => HandlingView::Respond(not_found_response()),
        }
    } else if method == "OPTIONS"@ {
        HandlingView::Respond(plain_response(204, BodyView::Empty))
    } else if equal_ignoring_ascii_case(method, "PROPFIND"@) {
        match route(uri_path) {
            Some(path) => HandlingView::Propfind { path },
            None => HandlingView::Respond(not_found_response()),
        }
    } else {
        HandlingView::Respond(plain_response(405, BodyView::Empty))
    }
}

/// What a `GET` of a resolved resource is answered with.
#[derive(Debug)]
pub enum GetAction {
    /// A page that lists `children` is to be rendered.
    Render { children: Vec<DavResource>, title: String, pathparts: Vec<Component> },
    /// This is the answer.
    Respond(Response),
}

/// A [`GetAction`] as plain values.
pub enum GetActionView {
    Render { children: Seq<DavResourceView>, title: Seq<char>, pathparts: Seq<Seq<char>> },
    Respond(ResponseView),
}

/// How a `GET` of a resource is answered.  A collection is listed on a page.
/// An item is answered with its bytes under its content type, or with a
/// redirect to the URL that is preferred, or, where it has no content, with
/// 404.
pub open spec fn get_action(
    title: Seq<char>,
    prefer_s3_redirects: bool,
    resolved: DavResourceWithChildrenView,
    pathparts: Seq<Seq<char>>,
) -> GetActionView {
    match resolved {
        DavResourceWithChildrenView::Collection { children, .. } => GetActionView::Render {
            children,
            title,
            pathparts,
        },
        DavResourceWithChildrenView::Item(item) => match item.content {
            DavContentView::Blob(bytes) => GetActionView::Respond(
                typed_response(200, item.content_type, BodyView::Bytes(bytes)),
            ),
            DavContentView::Redirect(r) => GetActionView::Respond(
                redirect_response(redirect_url(r, prefer_s3_redirects)),
            ),
            DavContentView::Missing => GetActionView::Respond(not_found_response()),
        },
    }
}

/// The final response to a request whose handling came to `outcome`.  An
/// error that counts as not found is answered with 404, any other error with
/// 500 and a report of the error.  The two WebDAV headers are added whatever
/// the outcome.
pub open spec fn final_response(outcome: Result<ResponseView, DavErrorView>) -> ResponseView {
    with_webdav_headers(
        match outcome {
            Ok(r) => r,
            Err(e) => if is_not_found(e) {
                not_found_response()
            } else {
                plain_response(500, BodyView::Text(error_report(e)))
            },
        },
    )
}

/// The content type of a page that lists a collection.
pub open spec fn html_content_type() -> Seq<char> {
    "text/html; charset=utf-8"@
}

/// The content type of a multistatus document.
pub open spec fn dav_xml_content_type() -> Seq<char> {
    "text/xml; charset=utf-8"@
}

/// The response that carries a multistatus document with the responses
/// `responses`: status 207 and the document as the XML writer writes it; or
/// the error that says why the writer cannot write it.
pub open spec fn document_response(responses: Seq<DavResponseView>) -> Result<
    ResponseView,
    DavErrorView,
> {
    match written_xml(multistatus_pieces(responses)) {
        Ok(xml) => Ok(typed_response(207, dav_xml_content_type(), BodyView::Text(xml))),
        Err(msg) => Err(DavErrorView::Xml(msg)),
    }
}

/// The settings of the gateway that the answers depend on.
#[derive(Debug)]
pub struct DandiDav {
    /// The site title shown on listing pages.
    pub title: String,
    /// Whether a `GET` of a blob is redirected to the storage itself (`true`)
    /// or to the archive's download URL, which redirects on to the storage
    /// (`false`).
    pub prefer_s3_redirects: bool,
}

impl DandiDav {
    /// Decides what a request asks for, from its verb and its URL path.
    pub fn inner_handle_request(&self, method: &str, uri_path: &str) -> (h: Handling)
        ensures
            match h {
                Handling::Respond(r) => handling(method@, uri_path@) == HandlingView::Respond(r@),
                Handling::Get { path, pathparts } => handling(method@, uri_path@)
                    == (HandlingView::Get { path: path@, pathparts: component_texts(pathparts@) }),
                Handling::Propfind { path } => handling(method@, uri_path@)
                    == (HandlingView::Propfind { path: path@ }),
            },
    {
        if same_text(method, "GET") {
            let parts = match split_uri_path(uri_path) {
                Some(parts) => parts,
                None => {
                    return Handling::Respond(Response::not_found());
                },
            };
            let pathparts = clone_components(&parts);
            match DavPath::from_components(parts) {
                Some(path) => Handling::Get { path, pathparts },
                None => Handling::Respond(Response::not_found()),
            }
        } else if same_text(method, "OPTIONS") {
            Handling::Respond(Response::plain(204, Body::Empty))
        } else if eq_ignore_ascii_case(method, "PROPFIND") {
            let parts = match split_uri_path(uri_path) {
                Some(parts) => parts,
                None => {
                    return Handling::Respond(Response::not_found());
                },
            };
            match DavPath::from_components(parts) {
                Some(path) => Handling::Propfind { path },
                None => Handling::Respond(Response::not_found()),
            }
        } else {
            Handling::Respond(Response::plain(405, Body::Empty))
        }
    }

    /// Answers a `GET` of the resource `resolved`.  `pathparts` holds the
    /// segments of the request path.
    pub fn get(&self, resolved: DavResourceWithChildren, pathparts: Vec<Component>) -> (a:
        GetAction)
        ensures
            match a {
                GetAction::Render { children, title, pathparts: parts } => get_action(
                    self.title@,
                    self.prefer_s3_redirects,
                    resolved@,
                    component_texts(pathparts@),
                ) == (GetActionView::Render {
                    children: resource_views(children@),
                    title: title@,
                    pathparts: component_texts(parts@),
                }),
                GetAction::Respond(r) => get_action(
                    self.title@,
                    self.prefer_s3_redirects,
                    resolved@,
                    component_texts(pathparts@),
                ) == GetActionView::Respond(r@),
            },
    {
        match resolved {
            DavResourceWithChildren::Collection { children, .. } => GetAction::Render {
                children,
                title: self.title.clone(),
                pathparts,
            },
            DavResourceWithChildren::Item(item) => {
                let DavItem { content_type, content, .. } = item;
                match content {
                    DavContent::Blob(blob) => GetAction::Respond(
                        Response::typed(200, content_type, Body::Bytes(blob)),
                    ),
                    DavContent::Redirect(redir) => GetAction::Respond(
                        Response::redirect(redir.get_url(self.prefer_s3_redirects)),
                    ),
                    DavContent::Missing => GetAction::Respond(Response::not_found()),
                }
            },
        }
    }

    /// The response that carries the rendered page `html`; or, where
    /// rendering failed, the error that says why.
    pub fn rendered(&self, page: Result<String, String>) -> (r: Result<Response, DavError>)
        ensures
            match (page, r) {
                (Ok(html), Ok(resp)) => resp@ == typed_response(
                    200,
                    html_content_type(),
                    BodyView::Text(html@),
                ),
                (Err(msg), Err(e)) => e@ == DavErrorView::Template(msg@),
                _ => false,
            },
    {
        match page {
            Ok(html) => Ok(
                Response::typed(200, "text/html; charset=utf-8".to_owned(), Body::Text(html)),
            ),
            Err(msg) => Err(DavError::Template(msg)),
        }
    }

    /// The response that carries the multistatus document `document`, with
    /// status 207; or, where the document cannot be written, the error that
    /// says why.
    pub fn multistatus_response(&self, document: &Multistatus) -> (r: Result<Response, DavError>)
        ensures
            match r {
                Ok(resp) => Ok::<ResponseView, DavErrorView>(resp@),
                Err(e) => Err::<ResponseView, DavErrorView>(e@),
            } == document_response(response_views(document.response@)),
    {
        match document.to_xml() {
            Ok(xml) => Ok(
                Response::typed(207, "text/xml; charset=utf-8".to_owned(), Body::Text(xml)),
            ),
            Err(msg) => Err(DavError::Xml(msg)),
        }
    }

    /// Turns the outcome of handling a request into the final response:
    /// errors become 404 or 500 responses, and the WebDAV headers are added.
    pub fn handle_request(&self, outcome: Result<Response, DavError>) -> (r: Response)
        ensures
            r@ == final_response(
                match outcome {
                    Ok(resp) => Ok(resp@),
                    Err(e) => Err(e@),
                },
            ),
    {
        let resp = match outcome {
            Ok(r) => r,
            Err(e) => {
                if e.is_404() {
                    Response::not_found()
                } else {
                    Response::plain(500, Body::Text(e.report()))
                }
            },
        };
        resp.add_webdav_headers()
    }
}

/// A copy of `parts`.
pub fn clone_components(parts: &Vec<Component>) -> (out: Vec<Component>)
    ensures
        out@ == parts@,
{
    let mut out: Vec<Component> = Vec::new();
    let mut i: usize = 0;
    while i < parts.len()
        invariant
            i <= parts.len(),
            out@ == parts@.take(i as int),
        decreases parts.len() - i,
    {
        out.push(parts[i].clone());
        assert(out@ =~= parts@.take(i + 1));
        i += 1;
    }
    assert(parts@.take(parts@.len() as int) =~= parts@);
    out
}

/// What a `PROPFIND` of the address `path` comes to after the answers
/// `replies`.  With depth zero the resource alone is resolved and reported;
/// with depth one the resource is resolved with its children, and it and
/// each child are reported, in that order.
pub open spec fn propfind_step(
    path: DavPathView,
    depth: FiniteDepth,
    query: PropFindView,
    replies: Seq<BackendReplyView>,
) -> StepView<Seq<DavResponseView>> {
    match depth {
        FiniteDepth::Zero => match resource_step(path, replies) {
            StepView::Call(c) => StepView::Call(c),
            StepView::Done(Err(e)) => StepView::Done(Err(e)),
            StepView::Done(Ok(r)) => StepView::Done(Ok(responses_for(query, seq![r]))),
        },
        FiniteDepth::One => match children_step(path, replies) {
            StepView::Call(c) => StepView::Call(c),
            StepView::Done(Err(e)) => StepView::Done(Err(e)),
            StepView::Done(Ok(r)) => StepView::Done(Ok(responses_for(query, flattened(r)))),
        },
    }
}

/// What a `PROPFIND` of the address `path` is answered with after the
/// answers `replies`: once the resources are resolved, the response that
/// carries their multistatus document.
pub open spec fn propfind_answer(
    path: DavPathView,
    depth: FiniteDepth,
    query: PropFindView,
    replies: Seq<BackendReplyView>,
) -> StepView<ResponseView> {
    match propfind_step(path, depth, query, replies) {
        StepView::Call(c) => StepView::Call(c),
        StepView::Done(Err(e)) => StepView::Done(Err(e)),
        StepView::Done(Ok(responses)) => StepView::Done(document_response(responses)),
    }
}

/// What is said of a `Depth` header that is not accepted.
pub open spec fn depth_error_text(e: DepthError) -> Seq<char> {
    match e {
        DepthError::Missing => "Missing Depth header\n"@,
        DepthError::Infinite => "Depth: infinity is not supported\n"@,
        DepthError::Invalid => "Invalid Depth header\n"@,
    }
}

/// The depth and the query of a `PROPFIND` request, or the response that
/// rejects the request: status 400 where the `Depth` header is not `0` or
/// `1`, and else where the body is no query, with what `body` says of it.
pub open spec fn propfind_input(header: Option<Seq<char>>, body: Result<PropFindView, Seq<char>>)
    -> Result<(FiniteDepth, PropFindView), ResponseView> {
    match depth_of(header) {
        Err(e) => Err(plain_response(400, BodyView::Text(depth_error_text(e)))),
        Ok(depth) => match body {
            Err(msg) => Err(plain_response(400, BodyView::Text(msg))),
            Ok(query) => Ok((depth, query)),
        },
    }
}

impl DandiDav {
    /// Checks what a `PROPFIND` request came with: `header` is the value of
    /// its `Depth` header, if it has one, and `body` is its body.  A request
    /// that is rejected here is answered without any backend being asked.
    pub fn propfind_request(&self, header: Option<&str>, body: &[u8]) -> (r: Result<
        (FiniteDepth, PropFind),
        Response,
    >)
        ensures
            match r {
                Ok((depth, query)) => propfind_input(
                    slice_text(header),
                    PropFind::query_of(body@),
                ) == Ok::<(FiniteDepth, PropFindView), ResponseView>((depth, query@)),
                Err(resp) => propfind_input(slice_text(header), PropFind::query_of(body@))
                    == Err::<(FiniteDepth, PropFindView), ResponseView>(resp@),
            },
    {
        let depth = match FiniteDepth::parse(header) {
            Ok(depth) => depth,
            Err(e) => {
                let text = match e {
                    DepthError::Missing => "Missing Depth header\n",
                    DepthError::Infinite => "Depth: infinity is not supported\n",
                    DepthError::Invalid => "Invalid Depth header\n",
                };
                return Err(Response::plain(400, Body::Text(text.to_owned())));
            },
        };
        match PropFind::from_xml(body) {
            Ok(query) => Ok((depth, query)),
            Err(msg) => Err(Response::plain(400, Body::Text(msg))),
        }
    }

    /// The next step in answering a `PROPFIND` of the resource at `path`.
    /// `depth` is the value of the `Depth` header, and `query` is what the
    /// body of the request asks for.
    ///
    /// `replies` holds the answers to the calls that earlier steps asked
    /// for, in the order of the calls.  Where a further call is needed, the
    /// step names it and leaves `replies` as it is.  Otherwise the step
    /// holds the response with the multistatus document, or the error that
    /// ends the request, and `replies` is left empty.
    pub fn propfind(
        &self,
        path: &DavPath,
        depth: FiniteDepth,
        query: &PropFind,
        replies: &mut Vec<BackendReply>,
    ) -> (step: Step<Response>)
        ensures
            step_is(
                step,
                propfind_answer(path@, depth, query@, reply_views(old(replies)@)),
                old(replies)@,
                final(replies)@,
            ),
    {
        match self.propfind_multistatus(path, depth, query, replies) {
            Step::Call(c) => Step::Call(c),
            Step::Done(Err(e)) => Step::Done(Err(e)),
            Step::Done(Ok(document)) => Step::Done(self.multistatus_response(&document)),
        }
    }

    /// The next step in gathering what a `PROPFIND` of the resource at
    /// `path` reports: as [`DandiDav::propfind`], but the step holds the
    /// content of the multistatus document, not yet written out.
    pub fn propfind_multistatus(
        &self,
        path: &DavPath,
        depth: FiniteDepth,
        query: &PropFind,
        replies: &mut Vec<BackendReply>,
    ) -> (step: Step<Multistatus>)
        ensures
            match step {
                Step::Call(c) => propfind_step(path@, depth, query@, reply_views(old(replies)@))
                    == StepView::<Seq<DavResponseView>>::Call(c@) && final(replies)@ == old(
                    replies,
                )@,
                Step::Done(Ok(ms)) => propfind_step(
                    path@,
                    depth,
                    query@,
                    reply_views(old(replies)@),
                ) == StepView::<Seq<DavResponseView>>::Done(Ok(response_views(ms.response@)))
                    && final(replies)@.len() == 0,
                Step::Done(Err(e)) => propfind_step(
                    path@,
                    depth,
                    query@,
                    reply_views(old(replies)@),
                ) == StepView::<Seq<DavResponseView>>::Done(Err(e@)) && final(replies)@.len() == 0,
            },
    {
        let resources = match depth {
            FiniteDepth::Zero => match get_resource(path, replies) {
                Step::Call(c) => {
                    return Step::Call(c);
                },
                Step::Done(Err(e)) => {
                    return Step::Done(Err(e));
                },
                Step::Done(Ok(r)) => {
                    let ghost view = r@;
                    let mut resources: Vec<DavResource> = Vec::new();
                    resources.push(r);
                    assert(resource_views(resources@) =~= seq![view]);
                    resources
                },
            },
            FiniteDepth::One => match get_resource_with_children(path, replies) {
                Step::Call(c) => {
                    return Step::Call(c);
                },
                Step::Done(Err(e)) => {
                    return Step::Done(Err(e));
                },
                Step::Done(Ok(r)) => r.into_vec(),
            },
        };
        Step::Done(Ok(Multistatus::new(query, &resources)))
    }
}

} // verus!
