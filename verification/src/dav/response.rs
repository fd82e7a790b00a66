//! The responses that the gateway gives, as plain values.

use vstd::prelude::*;

verus! {

/// The body of a response.
#[derive(Debug)]
pub enum Body {
    Empty,
    Text(String),
    Bytes(Vec<u8>),
}

/// A [`Body`] as plain values.
pub enum BodyView {
    Empty,
    Text(Seq<char>),
    Bytes(Seq<u8>),
}

impl View for Body {
    type V = BodyView;

    open spec fn view(&self) -> BodyView {
        match self {
            Body::Empty => BodyView::Empty,
            Body::Text(s) => BodyView::Text(s@),
            Body::Bytes(b) => BodyView::Bytes(b@),
        }
    }
}

/// An HTTP response: a status code, headers as pairs of name and value, and
/// a body.
#[derive(Debug)]
pub struct Response {
    pub status: u16,
    pub headers: Vec<(String, String)>,
    pub body: Body,
}

/// A [`Response`] as plain values.
pub struct ResponseView {
    pub status: u16,
    pub headers: Seq<(Seq<char>, Seq<char>)>,
    pub body: BodyView,
}

/// The texts of a list of headers.
pub open spec fn header_views(headers: Seq<(String, String)>) -> Seq<(Seq<char>, Seq<char>)> {
    headers.map_values(|h: (String, String)| (h.0@, h.1@))
}

impl View for Response {
    type V = ResponseView;

    open spec fn view(&self) -> ResponseView {
        ResponseView {
            status: self.status,
            headers: header_views(self.headers@),
            body: self.body@,
        }
    }
}

/// A response without headers.
pub open spec fn plain_response(status: u16, body: BodyView) -> ResponseView {
    ResponseView { status, headers: Seq::<(Seq<char>, Seq<char>)>::empty(), body }
}

/// The response to a request for something that does not exist: status 404
/// with a minimal body.
pub open spec fn not_found_response() -> ResponseView {
    plain_response(404, BodyView::Text("404\n"@))
}

/// A response with one header, `name`.
pub open spec fn response_with_header(
    status: u16,
    name: Seq<char>,
    value: Seq<char>,
    body: BodyView,
) -> ResponseView {
    ResponseView { status, headers: seq![(name, value)], body }
}

/// A response of the given content type.
pub open spec fn typed_response(status: u16, content_type: Seq<char>, body: BodyView) -> ResponseView {
    response_with_header(status, "Content-Type"@, content_type, body)
}

/// A temporary redirect, status 307, to `url`.
pub open spec fn redirect_response(url: Seq<char>) -> ResponseView {
    response_with_header(307, "Location"@, url, BodyView::Empty)
}

/// The two headers that every response to a WebDAV request carries.
pub open spec fn webdav_headers() -> Seq<(Seq<char>, Seq<char>)> {
    seq![("Allow"@, "GET, HEAD, OPTIONS, PROPFIND"@), ("DAV"@, "1, 3"@)]
}

/// The response with the two WebDAV headers appended to its own.
pub open spec fn with_webdav_headers(r: ResponseView) -> ResponseView {
    ResponseView { headers: r.headers + webdav_headers(), ..r }
}

impl Response {
    /// A response without headers.
    pub fn plain(status: u16, body: Body) -> (r: Response)
        ensures
            r@ == plain_response(status, body@),
    {
        let headers: Vec<(String, String)> = Vec::new();
        assert(header_views(headers@) =~= Seq::<(Seq<char>, Seq<char>)>::empty());
        Response { status, headers, body }
    }

    /// The response to a request for something that does not exist.
    pub fn not_found() -> (r: Response)
        ensures
            r@ == not_found_response(),
    {
        Response::plain(404, Body::Text("404\n".to_owned()))
    }

    /// A response with one header.
    pub fn with_header(status: u16, name: &str, value: String, body: Body) -> (r: Response)
        ensures
            r@ == response_with_header(status, name@, value@, body@),
    {
        let mut headers: Vec<(String, String)> = Vec::new();
        let ghost pair = (name@, value@);
        headers.push((name.to_owned(), value));
        assert(header_views(headers@) =~= seq![pair]);
        Response { status, headers, body }
    }

    /// A response of the given content type.
    pub fn typed(status: u16, content_type: String, body: Body) -> (r: Response)
        ensures
            r@ == typed_response(status, content_type@, body@),
    {
        Response::with_header(status, "Content-Type", content_type, body)
    }

    /// A temporary redirect to `url`.
    pub fn redirect(url: &str) -> (r: Response)
        ensures
            r@ == redirect_response(url@),
    {
        Response::with_header(307, "Location", url.to_owned(), Body::Empty)
    }

    /// Appends the two WebDAV headers to the response.
    pub fn add_webdav_headers(self) -> (r: Response)
        ensures
            r@ == with_webdav_headers(self@),
    {
        let Response { status, mut headers, body } = self;
        let ghost before = header_views(headers@);
        headers.push(("Allow".to_owned(), "GET, HEAD, OPTIONS, PROPFIND".to_owned()));
        headers.push(("DAV".to_owned(), "1, 3".to_owned()));
        assert(header_views(headers@) =~= before + webdav_headers());
        Response { status, headers, body }
    }
}

} // verus!
