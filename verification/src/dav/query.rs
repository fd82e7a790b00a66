//! The bodies of `PROPFIND` requests: how they are read.

use crate::dav::types::text_of;
use crate::dav::xml::{property_views, PropFind, PropFindView, Property, PropertyView};
use crate::paths::text::same_text;
use vstd::prelude::*;

verus! {

/// A piece of an XML document as it is read: the start of an element, the
/// end of one, or anything else (text, a comment, the start or the end of
/// the document).
#[derive(Debug)]
pub enum XmlNode {
    /// The start of an element, by its namespace and its name in it.
    Start { namespace: Option<String>, name: String },
    End,
    Other,
}

/// An [`XmlNode`] as plain values.
pub enum XmlNodeView {
    Start { namespace: Option<Seq<char>>, name: Seq<char> },
    End,
    Other,
}

impl View for XmlNode {
    type V = XmlNodeView;

    open spec fn view(&self) -> XmlNodeView {
        match self {
            XmlNode::Start { namespace, name } => XmlNodeView::Start {
                namespace: text_of(*namespace),
                name: name@,
            },
            XmlNode::End => XmlNodeView::End,
            XmlNode::Other => XmlNodeView::Other,
        }
    }
}

/// The views of a list of nodes.
pub open spec fn node_views(nodes: Seq<XmlNode>) -> Seq<XmlNodeView> {
    nodes.map_values(|n: XmlNode| n@)
}

/// The nodes that the XML reader makes of a text, or what it says where the
/// text is not well-formed XML.
pub uninterp spec fn parsed_xml(body: Seq<u8>) -> Result<Seq<XmlNodeView>, Seq<char>>;

/// Nodes or a complaint as plain values.
pub open spec fn nodes_outcome(r: Result<Vec<XmlNode>, String>) -> Result<
    Seq<XmlNodeView>,
    Seq<char>,
> {
    match r {
        Ok(nodes) => Ok(node_views(nodes@)),
        Err(msg) => Err(msg@),
    }
}

/// Reads `body` as an XML document, by `xml::EventReader`.  The outcome is
/// the events of the reader in order, up to and with the end of the
/// document: the start of an element with its namespace and local name, the
/// end of an element, and any other event without what it holds.  Where the
/// reader reports an error, the outcome is the message of the error.  It
/// depends on the body alone.
#[verifier::external_body]
fn read_nodes(body: &[u8]) -> (r: Result<Vec<XmlNode>, String>)
    ensures
        nodes_outcome(r) == parsed_xml(body@),
{
    let mut nodes = Vec::new();
    for event in xml::EventReader::new(body) {
        nodes.push(match event.map_err(|e| e.to_string())? {
            xml::reader::XmlEvent::StartElement { name, .. } => XmlNode::Start { namespace: name.namespace, name: name.local_name },
            xml::reader::XmlEvent::EndElement { .. } => XmlNode::End,
            xml::reader::XmlEvent::StartDocument { .. } | xml::reader::XmlEvent::EndDocument | xml::reader::XmlEvent::ProcessingInstruction { .. } | xml::reader::XmlEvent::CData(_) | xml::reader::XmlEvent::Comment(_) | xml::reader::XmlEvent::Characters(_) | xml::reader::XmlEvent::Whitespace(_) => XmlNode::Other,
        });
    }
    Ok(nodes)
}

/// Why a well-formed XML document is not the body of a `PROPFIND` request.
#[derive(Clone, Copy, Debug, PartialEq, Eq, Structural)]
pub enum QueryError {
    /// The root of the document is not a `propfind` element of the `DAV:`
    /// namespace.
    NotPropfind,
    /// The first element in the root is none of `allprop`, `propname` and
    /// `prop` of the `DAV:` namespace, or the root holds no element.
    NoQuery,
    /// The `prop` element does not end.
    Unfinished,
}

/// The property that an element of the given namespace and name stands for.
pub open spec fn property_named(namespace: Option<Seq<char>>, name: Seq<char>) -> PropertyView {
    if namespace != Some("DAV:"@) {
        PropertyView::Other { namespace, name }
    } else if name == "creationdate"@ {
        PropertyView::CreationDate
    } else if name == "displayname"@ {
        PropertyView::DisplayName
    } else if name == "getcontentlength"@ {
        PropertyView::GetContentLength
    } else if name == "getcontenttype"@ {
        PropertyView::GetContentType
    } else if name == "getetag"@ {
        PropertyView::GetETag
    } else if name == "getlastmodified"@ {
        PropertyView::GetLastModified
    } else if name == "resourcetype"@ {
        PropertyView::ResourceType
    } else {
        PropertyView::Other { namespace, name }
    }
}

/// Whether `namespace` is the `DAV:` namespace.
pub fn is_dav_namespace(namespace: &Option<String>) -> (b: bool)
    ensures
        b == (text_of(*namespace) == Some("DAV:"@)),
{
    match namespace {
        Some(ns) => same_text(ns.as_str(), "DAV:"),
        None => false,
    }
}

impl Property {
    /// The property that an element of the given namespace and name stands
    /// for.
    pub fn named(namespace: Option<String>, name: String) -> (p: Property)
        ensures
            p@ == property_named(text_of(namespace), name@),
    {
        if !is_dav_namespace(&namespace) {
            return Property::Other { namespace, name };
        }
        let text = name.as_str();
        if same_text(text, "creationdate") {
            Property::CreationDate
        } else if same_text(text, "displayname") {
            Property::DisplayName
        } else if same_text(text, "getcontentlength") {
            Property::GetContentLength
        } else if same_text(text, "getcontenttype") {
            Property::GetContentType
        } else if same_text(text, "getetag") {
            Property::GetETag
        } else if same_text(text, "getlastmodified") {
            Property::GetLastModified
        } else if same_text(text, "resourcetype") {
            Property::ResourceType
        } else {
            Property::Other { namespace, name }
        }
    }
}

/// How far the reading of a `PROPFIND` body has come.
pub enum ScanView {
    /// Before the root.
    Start,
    /// In the root, before its first element.
    Root,
    /// In the `prop` element, `depth` elements deep below it, with `props`
    /// read so far.
    Listing { depth: nat, props: Seq<PropertyView> },
    /// The query is known.
    Done(PropFindView),
    /// The document is no query.
    Failed(QueryError),
}

/// Whether a node is the start of the `DAV:` element `name`.
pub open spec fn starts_dav(node: XmlNodeView, name: Seq<char>) -> bool {
    node == (XmlNodeView::Start { namespace: Some("DAV:"@), name })
}

/// What one node does to the reading.  The root must be `propfind`.  Its
/// first element decides: `allprop` and `propname` are queries by
/// themselves, and `prop` lists properties, one for each element directly
/// in it, up to its end.  What is inside the element of a property is
/// passed over, as is everything that is no element, and everything after
/// the query is known.
pub open spec fn scan_step(state: ScanView, node: XmlNodeView) -> ScanView {
    match state {
        ScanView::Start => match node {
            XmlNodeView::Other => ScanView::Start,
            _ => if starts_dav(node, "propfind"@) {
                ScanView::Root
            } else {
                ScanView::Failed(QueryError::NotPropfind)
            },
        },
        ScanView::Root => match node {
            XmlNodeView::Other => ScanView::Root,
            _ => if starts_dav(node, "allprop"@) {
                ScanView::Done(PropFindView::AllProp)
            } else if starts_dav(node, "propname"@) {
                ScanView::Done(PropFindView::PropName)
            } else if starts_dav(node, "prop"@) {
                ScanView::Listing { depth: 0, props: Seq::<PropertyView>::empty() }
            } else {
                ScanView::Failed(QueryError::NoQuery)
            },
        },
        ScanView::Listing { depth, props } => match node {
            XmlNodeView::Other => state,
            XmlNodeView::Start { namespace, name } => ScanView::Listing {
                depth: depth + 1,
                props: if depth == 0 {
                    props.push(property_named(namespace, name))
                } else {
                    props
                },
            },
            XmlNodeView::End => if depth == 0 {
                ScanView::Done(PropFindView::Prop(props))
            } else {
                ScanView::Listing { depth: (depth - 1) as nat, props }
            },
        },
        ScanView::Done(_) => state,
        ScanView::Failed(_) => state,
    }
}

/// How far the reading has come after `nodes`.
pub open spec fn scan(nodes: Seq<XmlNodeView>) -> ScanView
    decreases nodes.len(),
{
    if nodes.len() == 0 {
        ScanView::Start
    } else {
        scan_step(scan(nodes.drop_last()), nodes.last())
    }
}

/// The query that a document asks for, read from its nodes.
pub open spec fn propfind_of(nodes: Seq<XmlNodeView>) -> Result<PropFindView, QueryError> {
    match scan(nodes) {
        ScanView::Start => Err(QueryError::NotPropfind),
        ScanView::Root => Err(QueryError::NoQuery),
        ScanView::Listing { .. } => Err(QueryError::Unfinished),
        ScanView::Done(query) => Ok(query),
        ScanView::Failed(e) => Err(e),
    }
}

/// How far the reading of a `PROPFIND` body has come.
enum Scan {
    Start,
    Root,
    Listing { depth: usize, props: Vec<Property> },
    Done(PropFind),
    Failed(QueryError),
}

impl View for Scan {
    type V = ScanView;

    closed spec fn view(&self) -> ScanView {
        match self {
            Scan::Start => ScanView::Start,
            Scan::Root => ScanView::Root,
            Scan::Listing { depth, props } => ScanView::Listing {
                depth: *depth as nat,
                props: property_views(props@),
            },
            Scan::Done(query) => ScanView::Done(query@),
            Scan::Failed(e) => ScanView::Failed(*e),
        }
    }
}

/// Whether `node` is the start of the `DAV:` element `name`.
fn is_dav_start(node: &XmlNode, name: &str) -> (b: bool)
    ensures
        b == starts_dav(node@, name@),
{
    match node {
        XmlNode::Start { namespace, name: local } => is_dav_namespace(namespace) && same_text(
            local.as_str(),
            name,
        ),
        _ => false,
    }
}

/// The reading after one more node.
fn step(state: Scan, node: XmlNode) -> (next: Scan)
    requires
        state matches Scan::Listing { depth, .. } ==> depth < usize::MAX,
    ensures
        next@ == scan_step(state@, node@),
        next matches Scan::Listing { depth, .. } ==> (state matches Scan::Listing {
            depth: before,
            ..
        } ==> depth <= before + 1) && (!(state is Listing) ==> depth == 0),
{
    match state {
        Scan::Start => {
            if matches!(node, XmlNode::Other) {
                Scan::Start
            } else if is_dav_start(&node, "propfind") {
                Scan::Root
            } else {
                Scan::Failed(QueryError::NotPropfind)
            }
        },
        Scan::Root => {
            if matches!(node, XmlNode::Other) {
                Scan::Root
            } else if is_dav_start(&node, "allprop") {
                Scan::Done(PropFind::AllProp)
            } else if is_dav_start(&node, "propname") {
                Scan::Done(PropFind::PropName)
            } else if is_dav_start(&node, "prop") {
                let props: Vec<Property> = Vec::new();
                assert(property_views(props@) =~= Seq::<PropertyView>::empty());
                Scan::Listing { depth: 0, props }
            } else {
                Scan::Failed(QueryError::NoQuery)
            }
        },
        Scan::Listing { depth, props } => match node {
            XmlNode::Other => Scan::Listing { depth, props },
            XmlNode::Start { namespace, name } => {
                let mut props = props;
                if depth == 0 {
                    let ghost before = property_views(props@);
                    let p = Property::named(namespace, name);
                    let ghost pv = p@;
                    props.push(p);
                    assert(property_views(props@) =~= before.push(pv));
                }
                Scan::Listing { depth: depth + 1, props }
            },
            XmlNode::End => {
                if depth == 0 {
                    Scan::Done(PropFind::Prop(props))
                } else {
                    Scan::Listing { depth: depth - 1, props }
                }
            },
        },
        Scan::Done(query) => Scan::Done(query),
        Scan::Failed(e) => Scan::Failed(e),
    }
}

impl PropFind {
    /// The query that a document asks for, read from its nodes.
    pub fn from_nodes(nodes: Vec<XmlNode>) -> (r: Result<PropFind, QueryError>)
        ensures
            match r {
                Ok(query) => propfind_of(node_views(nodes@)) == Ok::<PropFindView, QueryError>(
                    query@,
                ),
                Err(e) => propfind_of(node_views(nodes@)) == Err::<PropFindView, QueryError>(e),
            },
    {
        let ghost given = nodes@;
        let ghost views = node_views(nodes@);
        let count = nodes.len();
        let mut state = Scan::Start;
        assert(views.take(0) =~= Seq::<XmlNodeView>::empty());
        for node in it: nodes.into_iter()
            invariant
                it.seq() == given,
                views == node_views(given),
                state@ == scan(views.take(it.index() as int)),
                state matches Scan::Listing { depth, .. } ==> depth <= it.index(),
                given.len() == count,
        {
            proof {
                let k = it.index() as int;
                assert(k < given.len());
                assert(views.take(k + 1).drop_last() =~= views.take(k));
                assert(views.take(k + 1).last() == node@);
            }
            state = step(state, node);
        }
        assert(views.take(given.len() as int) =~= views);
        match state {
            Scan::Start => Err(QueryError::NotPropfind),
            Scan::Root => Err(QueryError::NoQuery),
            Scan::Listing { .. } => Err(QueryError::Unfinished),
            Scan::Done(query) => Ok(query),
            Scan::Failed(e) => Err(e),
        }
    }

    /// What is said of a document that is no query.
    pub open spec fn complaint(e: QueryError) -> Seq<char> {
        match e {
            QueryError::NotPropfind => "request body is not a DAV: propfind element\n"@,
            QueryError::NoQuery => "propfind element holds none of allprop, propname, prop\n"@,
            QueryError::Unfinished => "prop element does not end\n"@,
        }
    }

    /// The query that the body `body` asks for, or what is wrong with it.
    /// A request without a body asks for all properties.
    pub open spec fn query_of(body: Seq<u8>) -> Result<PropFindView, Seq<char>> {
        if body.len() == 0 {
            Ok(PropFindView::AllProp)
        } else {
            match parsed_xml(body) {
                Err(msg) => Err(msg),
                Ok(nodes) => match propfind_of(nodes) {
                    Ok(query) => Ok(query),
                    Err(e) => Err(Self::complaint(e)),
                },
            }
        }
    }

    /// Reads the body of a `PROPFIND` request.  An empty body asks for all
    /// properties.  Any other body is read as XML; where it is not
    /// well-formed, or is no query, the result says why.
    pub fn from_xml(body: &[u8]) -> (r: Result<PropFind, String>)
        ensures
            match r {
                Ok(query) => Self::query_of(body@) == Ok::<PropFindView, Seq<char>>(query@),
                Err(msg) => Self::query_of(body@) == Err::<PropFindView, Seq<char>>(msg@),
            },
    {
        if body.len() == 0 {
            return Ok(PropFind::AllProp);
        }
        let nodes = match read_nodes(body) {
            Ok(nodes) => nodes,
            Err(msg) => {
                return Err(msg);
            },
        };
        match PropFind::from_nodes(nodes) {
            Ok(query) => Ok(query),
            Err(e) => Err(
                match e {
                    QueryError::NotPropfind => "request body is not a DAV: propfind element\n",
                    QueryError::NoQuery => "propfind element holds none of allprop, propname, prop\n",
                    QueryError::Unfinished => "prop element does not end\n",
                }.to_owned(),
            ),
        }
    }
}

} // verus!
