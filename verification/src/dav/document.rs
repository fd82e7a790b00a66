//! Multistatus documents: which elements make one up, and how they are
//! written out.

use crate::dav::time::{decimal_string, signed_decimal};
use crate::dav::xml::{
    found_views, property_views, response_views, DavResponse, DavResponseView, Multistatus,
    PropValue, PropValueView, Property, PropertyView,
};
use vstd::prelude::*;
use vstd::string::*;

verus! {

/// A piece of an XML document as it is written: the start of an element, the
/// end of the element begun last, or text.
#[derive(Debug)]
pub enum XmlPiece {
    /// The start of the element `name`, which may begin with a prefix and a
    /// colon.  Where `namespace` is not empty, the element binds `prefix`
    /// to it; the empty prefix stands for the default namespace.
    Start { name: String, prefix: String, namespace: String },
    End,
    Text(String),
}

/// An [`XmlPiece`] as plain values.
pub enum XmlPieceView {
    Start { name: Seq<char>, prefix: Seq<char>, namespace: Seq<char> },
    End,
    Text(Seq<char>),
}

impl View for XmlPiece {
    type V = XmlPieceView;

    open spec fn view(&self) -> XmlPieceView {
        match self {
            XmlPiece::Start { name, prefix, namespace } => XmlPieceView::Start {
                name: name@,
                prefix: prefix@,
                namespace: namespace@,
            },
            XmlPiece::End => XmlPieceView::End,
            XmlPiece::Text(s) => XmlPieceView::Text(s@),
        }
    }
}

/// The views of a list of pieces.
pub open spec fn piece_views(pieces: Seq<XmlPiece>) -> Seq<XmlPieceView> {
    pieces.map_values(|p: XmlPiece| p@)
}

/// The text that the XML writer makes of a list of pieces, or what it says
/// where it cannot write them.
pub uninterp spec fn written_xml(pieces: Seq<XmlPieceView>) -> Result<Seq<char>, Seq<char>>;

/// A text or a complaint as plain values.
pub open spec fn text_outcome(r: Result<String, String>) -> Result<Seq<char>, Seq<char>> {
    match r {
        Ok(s) => Ok(s@),
        Err(s) => Err(s@),
    }
}

/// Writes `pieces` out as an XML document, by `xml::EventWriter`.  For each
/// piece in turn the writer is handed one event: the start of an element
/// with its name and the binding of its prefix, the end of an element, or
/// characters.  The outcome is the text that the writer has written, or the
/// message of its first error.  It depends on the pieces alone.
#[verifier::external_body]
fn write_pieces(pieces: &Vec<XmlPiece>) -> (r: Result<String, String>)
    ensures
        text_outcome(r) == written_xml(piece_views(pieces@)),
{
    let mut writer = xml::EventWriter::new(Vec::new());
    for piece in pieces {
        let event = match piece {
            XmlPiece::Start { name, prefix, namespace } => xml::writer::XmlEvent::start_element(name.as_str()).ns(prefix.as_str(), namespace.as_str()).into(),
            XmlPiece::End => xml::writer::XmlEvent::end_element().into(),
            XmlPiece::Text(text) => xml::writer::XmlEvent::characters(text),
        };
        writer.write(event).map_err(|e| e.to_string())?;
    }
    String::from_utf8(writer.into_inner()).map_err(|e| e.to_string())
}

/// The start of an element of the `DAV:` namespace, under the prefix `D`,
/// which the root of the document binds.
pub open spec fn dav_start(name: Seq<char>) -> XmlPieceView {
    XmlPieceView::Start {
        name: "D:"@ + name,
        prefix: Seq::<char>::empty(),
        namespace: Seq::<char>::empty(),
    }
}

/// An element of the `DAV:` namespace with the content `inner`.
pub open spec fn dav_element(name: Seq<char>, inner: Seq<XmlPieceView>) -> Seq<XmlPieceView> {
    seq![dav_start(name)] + inner + seq![XmlPieceView::End]
}

/// An element of the `DAV:` namespace that holds the text `text`.
pub open spec fn dav_text_element(name: Seq<char>, text: Seq<char>) -> Seq<XmlPieceView> {
    dav_element(name, seq![XmlPieceView::Text(text)])
}

/// The start of the element that stands for a property.  A property that
/// the gateway does not know is put into its own namespace, as the default
/// namespace of its element.
pub open spec fn property_start(p: PropertyView) -> XmlPieceView {
    match p {
        PropertyView::CreationDate => dav_start("creationdate"@),
        PropertyView::DisplayName => dav_start("displayname"@),
        PropertyView::GetContentLength => dav_start("getcontentlength"@),
        PropertyView::GetContentType => dav_start("getcontenttype"@),
        PropertyView::GetETag => dav_start("getetag"@),
        PropertyView::GetLastModified => dav_start("getlastmodified"@),
        PropertyView::ResourceType => dav_start("resourcetype"@),
        PropertyView::Other { namespace, name } => XmlPieceView::Start {
            name,
            prefix: Seq::<char>::empty(),
            namespace: match namespace {
                Some(ns) => ns,
                None => Seq::<char>::empty(),
            },
        },
    }
}

/// The content of the element of the property `p` with the value `v`.  The
/// creation date is written as RFC 3339 has it, any other time as an HTTP
/// date; a size in decimal; the resource type of a collection as an empty
/// `collection` element.
pub open spec fn value_pieces(p: PropertyView, v: PropValueView) -> Seq<XmlPieceView> {
    match v {
        PropValueView::Empty => Seq::<XmlPieceView>::empty(),
        PropValueView::Collection => dav_element("collection"@, Seq::<XmlPieceView>::empty()),
        PropValueView::Text(s) => seq![XmlPieceView::Text(s)],
        PropValueView::Size(n) => seq![XmlPieceView::Text(signed_decimal(n as int))],
        PropValueView::Time(t) => seq![
            XmlPieceView::Text(
                if p is CreationDate {
                    t.rfc3339()
                } else {
                    t.http_date()
                },
            ),
        ],
    }
}

/// The element of the property `p` with the value `v`.
pub open spec fn property_pieces(p: PropertyView, v: PropValueView) -> Seq<XmlPieceView> {
    seq![property_start(p)] + value_pieces(p, v) + seq![XmlPieceView::End]
}

/// The elements of the properties `found`, in order.
pub open spec fn found_pieces(found: Seq<(PropertyView, PropValueView)>) -> Seq<XmlPieceView>
    decreases found.len(),
{
    if found.len() == 0 {
        Seq::<XmlPieceView>::empty()
    } else {
        found_pieces(found.drop_last()) + property_pieces(found.last().0, found.last().1)
    }
}

/// The empty elements of the properties `missing`, in order.
pub open spec fn missing_pieces(missing: Seq<PropertyView>) -> Seq<XmlPieceView>
    decreases missing.len(),
{
    if missing.len() == 0 {
        Seq::<XmlPieceView>::empty()
    } else {
        missing_pieces(missing.drop_last()) + property_pieces(
            missing.last(),
            PropValueView::Empty,
        )
    }
}

/// A `propstat` element: the properties `inner` under the status `status`.
pub open spec fn propstat_pieces(inner: Seq<XmlPieceView>, status: Seq<char>) -> Seq<
    XmlPieceView,
> {
    dav_element("propstat"@, dav_element("prop"@, inner) + dav_text_element("status"@, status))
}

/// The `response` element of one resource: its link; the properties that it
/// has, under the status 200; and, where it lacks properties that were
/// asked for, those under the status 404.
pub open spec fn response_pieces(r: DavResponseView) -> Seq<XmlPieceView> {
    dav_element(
        "response"@,
        dav_text_element("href"@, r.href) + propstat_pieces(
            found_pieces(r.found),
            "HTTP/1.1 200 OK"@,
        ) + (if r.missing.len() > 0 {
            propstat_pieces(missing_pieces(r.missing), "HTTP/1.1 404 Not Found"@)
        } else {
            Seq::<XmlPieceView>::empty()
        }),
    )
}

/// The `response` elements of `responses`, in order.
pub open spec fn all_response_pieces(responses: Seq<DavResponseView>) -> Seq<XmlPieceView>
    decreases responses.len(),
{
    if responses.len() == 0 {
        Seq::<XmlPieceView>::empty()
    } else {
        all_response_pieces(responses.drop_last()) + response_pieces(responses.last())
    }
}

/// The start of the root of a multistatus document, which binds the prefix
/// `D` to the namespace `DAV:`.
pub open spec fn multistatus_start() -> XmlPieceView {
    XmlPieceView::Start { name: "D:multistatus"@, prefix: "D"@, namespace: "DAV:"@ }
}

/// A multistatus document: a `multistatus` element that holds one
/// `response` element for each response, in order.
pub open spec fn multistatus_pieces(responses: Seq<DavResponseView>) -> Seq<XmlPieceView> {
    seq![multistatus_start()] + all_response_pieces(responses) + seq![XmlPieceView::End]
}

/// Appends `piece`.
fn push_piece(out: &mut Vec<XmlPiece>, piece: XmlPiece)
    ensures
        piece_views(final(out)@) == piece_views(old(out)@).push(piece@),
{
    out.push(piece);
    assert(piece_views(out@) =~= piece_views(old(out)@).push(piece@));
}

/// Appends the start of the `DAV:` element `name`.
fn push_dav_start(out: &mut Vec<XmlPiece>, name: &str)
    ensures
        piece_views(final(out)@) == piece_views(old(out)@).push(dav_start(name@)),
{
    let qualified = "D:".to_owned().concat(name);
    push_piece(out, XmlPiece::Start { name: qualified, prefix: String::new(), namespace: String::new() });
}

/// Appends the `DAV:` element `name` with the text `text`.
fn push_dav_text_element(out: &mut Vec<XmlPiece>, name: &str, text: String)
    ensures
        piece_views(final(out)@) == piece_views(old(out)@) + dav_text_element(name@, text@),
{
    push_dav_start(out, name);
    push_piece(out, XmlPiece::Text(text));
    push_piece(out, XmlPiece::End);
    assert(piece_views(out@) =~= piece_views(old(out)@) + dav_text_element(name@, text@));
}

/// Appends the element of the property `p` with the value `v`.
fn push_property(out: &mut Vec<XmlPiece>, p: &Property, v: &PropValue)
    ensures
        piece_views(final(out)@) == piece_views(old(out)@) + property_pieces(p@, v@),
{
    match p {
        Property::CreationDate => push_dav_start(out, "creationdate"),
        Property::DisplayName => push_dav_start(out, "displayname"),
        Property::GetContentLength => push_dav_start(out, "getcontentlength"),
        Property::GetContentType => push_dav_start(out, "getcontenttype"),
        Property::GetETag => push_dav_start(out, "getetag"),
        Property::GetLastModified => push_dav_start(out, "getlastmodified"),
        Property::ResourceType => push_dav_start(out, "resourcetype"),
        Property::Other { namespace, name } => {
            let ns = match namespace {
                Some(ns) => ns.clone(),
                None => String::new(),
            };
            push_piece(out, XmlPiece::Start { name: name.clone(), prefix: String::new(), namespace: ns });
        },
    }
    let ghost started = piece_views(out@);
    assert(started == piece_views(old(out)@).push(property_start(p@)));
    match v {
        PropValue::Empty => {},
        PropValue::Collection => {
            push_dav_start(out, "collection");
            push_piece(out, XmlPiece::End);
            assert(piece_views(out@) =~= started + dav_element(
                "collection"@,
                Seq::<XmlPieceView>::empty(),
            ));
        },
        PropValue::Text(s) => {
            push_piece(out, XmlPiece::Text(s.clone()));
        },
        PropValue::Size(n) => {
            push_piece(out, XmlPiece::Text(decimal_string(*n)));
        },
        PropValue::Time(t) => {
            let text = match p {
                Property::CreationDate => t.to_rfc3339(),
                _ => t.to_http_date(),
            };
            push_piece(out, XmlPiece::Text(text));
        },
    }
    assert(piece_views(out@) =~= started + value_pieces(p@, v@));
    push_piece(out, XmlPiece::End);
    assert(piece_views(out@) =~= piece_views(old(out)@) + property_pieces(p@, v@));
}

/// Appends a `propstat` element with the properties `found`.
fn push_found(out: &mut Vec<XmlPiece>, found: &Vec<(Property, PropValue)>)
    ensures
        piece_views(final(out)@) == piece_views(old(out)@) + propstat_pieces(
            found_pieces(found_views(found@)),
            "HTTP/1.1 200 OK"@,
        ),
{
    let ghost views = found_views(found@);
    push_dav_start(out, "propstat");
    push_dav_start(out, "prop");
    let ghost base = piece_views(out@);
    let mut i: usize = 0;
    assert(views.take(0) =~= Seq::<(PropertyView, PropValueView)>::empty());
    assert(base + found_pieces(views.take(0)) =~= base);
    while i < found.len()
        invariant
            i <= found.len(),
            views == found_views(found@),
            piece_views(out@) == base + found_pieces(views.take(i as int)),
        decreases found.len() - i,
    {
        proof {
            assert(views.take(i + 1).drop_last() =~= views.take(i as int));
            assert(views.take(i + 1).last() == (found@[i as int].0@, found@[i as int].1@));
        }
        let ghost before = found_pieces(views.take(i as int));
        push_property(out, &found[i].0, &found[i].1);
        assert(piece_views(out@) =~= base + found_pieces(views.take(i + 1))) by {
            assert(base + before + property_pieces(found@[i as int].0@, found@[i as int].1@) =~= base
                + (before + property_pieces(found@[i as int].0@, found@[i as int].1@)));
        }
        i += 1;
    }
    assert(views.take(found@.len() as int) =~= views);
    push_piece(out, XmlPiece::End);
    push_dav_text_element(out, "status", "HTTP/1.1 200 OK".to_owned());
    push_piece(out, XmlPiece::End);
    assert(piece_views(out@) =~= piece_views(old(out)@) + propstat_pieces(
        found_pieces(views),
        "HTTP/1.1 200 OK"@,
    ));
}

/// Appends a `propstat` element with the properties `missing`.
fn push_missing(out: &mut Vec<XmlPiece>, missing: &Vec<Property>)
    ensures
        piece_views(final(out)@) == piece_views(old(out)@) + propstat_pieces(
            missing_pieces(property_views(missing@)),
            "HTTP/1.1 404 Not Found"@,
        ),
{
    let ghost views = property_views(missing@);
    push_dav_start(out, "propstat");
    push_dav_start(out, "prop");
    let ghost base = piece_views(out@);
    let mut i: usize = 0;
    assert(views.take(0) =~= Seq::<PropertyView>::empty());
    assert(base + missing_pieces(views.take(0)) =~= base);
    while i < missing.len()
        invariant
            i <= missing.len(),
            views == property_views(missing@),
            piece_views(out@) == base + missing_pieces(views.take(i as int)),
        decreases missing.len() - i,
    {
        proof {
            assert(views.take(i + 1).drop_last() =~= views.take(i as int));
            assert(views.take(i + 1).last() == missing@[i as int]@);
        }
        let ghost before = missing_pieces(views.take(i as int));
        push_property(out, &missing[i], &PropValue::Empty);
        assert(piece_views(out@) =~= base + missing_pieces(views.take(i + 1))) by {
            assert(base + before + property_pieces(missing@[i as int]@, PropValueView::Empty)
                =~= base + (before + property_pieces(missing@[i as int]@, PropValueView::Empty)));
        }
        i += 1;
    }
    assert(views.take(missing@.len() as int) =~= views);
    push_piece(out, XmlPiece::End);
    push_dav_text_element(out, "status", "HTTP/1.1 404 Not Found".to_owned());
    push_piece(out, XmlPiece::End);
    assert(piece_views(out@) =~= piece_views(old(out)@) + propstat_pieces(
        missing_pieces(views),
        "HTTP/1.1 404 Not Found"@,
    ));
}

impl DavResponse {
    /// Appends the `response` element of this response to `out`.
    pub fn push_pieces(&self, out: &mut Vec<XmlPiece>)
        ensures
            piece_views(final(out)@) == piece_views(old(out)@) + response_pieces(self@),
    {
        push_dav_start(out, "response");
        push_dav_text_element(out, "href", self.href.clone());
        push_found(out, &self.found);
        if self.missing.len() > 0 {
            push_missing(out, &self.missing);
        }
        push_piece(out, XmlPiece::End);
        assert(piece_views(out@) =~= piece_views(old(out)@) + response_pieces(self@));
    }
}

impl Multistatus {
    /// The pieces of the document, in order.
    pub fn to_pieces(&self) -> (out: Vec<XmlPiece>)
        ensures
            piece_views(out@) == multistatus_pieces(response_views(self.response@)),
    {
        let ghost views = response_views(self.response@);
        let mut out: Vec<XmlPiece> = Vec::new();
        assert(piece_views(out@) =~= Seq::<XmlPieceView>::empty());
        push_piece(
            &mut out,
            XmlPiece::Start {
                name: "D:multistatus".to_owned(),
                prefix: "D".to_owned(),
                namespace: "DAV:".to_owned(),
            },
        );
        let ghost base = piece_views(out@);
        assert(base =~= seq![multistatus_start()]);
        let mut i: usize = 0;
        assert(views.take(0) =~= Seq::<DavResponseView>::empty());
        assert(base + all_response_pieces(views.take(0)) =~= base);
        while i < self.response.len()
            invariant
                i <= self.response.len(),
                views == response_views(self.response@),
                piece_views(out@) == base + all_response_pieces(views.take(i as int)),
            decreases self.response.len() - i,
        {
            proof {
                assert(views.take(i + 1).drop_last() =~= views.take(i as int));
                assert(views.take(i + 1).last() == self.response@[i as int]@);
            }
            let ghost before = all_response_pieces(views.take(i as int));
            self.response[i].push_pieces(&mut out);
            assert(piece_views(out@) =~= base + all_response_pieces(views.take(i + 1))) by {
                assert(base + before + response_pieces(self.response@[i as int]@) =~= base + (
                before + response_pieces(self.response@[i as int]@)));
            }
            i += 1;
        }
        assert(views.take(self.response@.len() as int) =~= views);
        push_piece(&mut out, XmlPiece::End);
        out
    }

    /// The document as XML text, or what the XML writer says where it
    /// cannot write it.
    pub fn to_xml(&self) -> (r: Result<String, String>)
        ensures
            text_outcome(r) == written_xml(multistatus_pieces(response_views(self.response@))),
    {
        let pieces = self.to_pieces();
        write_pieces(&pieces)
    }
}

} // verus!
