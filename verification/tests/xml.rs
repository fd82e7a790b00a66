use dandidav::dav::document::XmlPiece;
use dandidav::dav::engine::Step;
use dandidav::dav::query::{QueryError, XmlNode};
use dandidav::dav::{
    Body, DandiDav, DavCollection, DavContent, DavItem, DavPath, DavResource, DavResponse,
    FiniteDepth, Multistatus, PropFind, PropValue, Property, ResourceKind, Timestamp,
};

fn start(ns: Option<&str>, name: &str) -> XmlNode {
    XmlNode::Start { namespace: ns.map(str::to_owned), name: name.to_owned() }
}

fn dav(name: &str) -> XmlNode {
    start(Some("DAV:"), name)
}

fn props_of(query: PropFind) -> Vec<String> {
    match query {
        PropFind::Prop(props) => props.iter().map(|p| format!("{p:?}")).collect(),
        other => panic!("unexpected query {other:?}"),
    }
}

#[test]
fn empty_body_asks_for_all_properties() {
    assert!(matches!(PropFind::from_xml(b""), Ok(PropFind::AllProp)));
}

#[test]
fn allprop_and_propname_bodies() {
    let allprop = br#"<?xml version="1.0" encoding="utf-8" ?>
        <D:propfind xmlns:D="DAV:">
          <!-- everything -->
          <D:allprop/>
        </D:propfind>"#;
    assert!(matches!(PropFind::from_xml(allprop), Ok(PropFind::AllProp)));
    let propname = br#"<propfind xmlns="DAV:"><propname/></propfind>"#;
    assert!(matches!(PropFind::from_xml(propname), Ok(PropFind::PropName)));
}

#[test]
fn prop_body_lists_properties_in_order() {
    let body = br#"<?xml version="1.0" encoding="utf-8" ?>
        <D:propfind xmlns:D="DAV:">
          <D:prop xmlns:R="http://ns.example.com/boxschema/">
            <R:bigbox><R:inner/></R:bigbox>
            <D:getlastmodified/>
            <D:resourcetype/>
            <D:displayname/>
            <D:getcontentlength/>
            <D:getcontenttype/>
            <D:getetag/>
            <D:creationdate/>
            <D:quota/>
            <plain/>
            <displayname xmlns="urn:other"/>
          </D:prop>
        </D:propfind>"#;
    assert_eq!(
        props_of(PropFind::from_xml(body).unwrap()),
        vec![
            "Other { namespace: Some(\"http://ns.example.com/boxschema/\"), name: \"bigbox\" }",
            "GetLastModified",
            "ResourceType",
            "DisplayName",
            "GetContentLength",
            "GetContentType",
            "GetETag",
            "CreationDate",
            "Other { namespace: Some(\"DAV:\"), name: \"quota\" }",
            "Other { namespace: None, name: \"plain\" }",
            "Other { namespace: Some(\"urn:other\"), name: \"displayname\" }",
        ]
    );
    let empty = br#"<propfind xmlns="DAV:"><prop/></propfind>"#;
    assert!(props_of(PropFind::from_xml(empty).unwrap()).is_empty());
}

#[test]
fn bodies_that_are_no_query() {
    for body in [
        &b"<propfind xmlns=\"DAV:\"><allprop/>"[..],
        b"not xml at all",
        b"<a><b></a></b>",
        b"   ",
    ] {
        assert!(PropFind::from_xml(body).is_err(), "{:?}", String::from_utf8_lossy(body));
    }
    assert_eq!(
        PropFind::from_xml(b"<propfind><allprop/></propfind>").unwrap_err(),
        "request body is not a DAV: propfind element\n"
    );
    assert_eq!(
        PropFind::from_xml(b"<D:multistatus xmlns:D=\"DAV:\"/>").unwrap_err(),
        "request body is not a DAV: propfind element\n"
    );
    assert_eq!(
        PropFind::from_xml(b"<propfind xmlns=\"DAV:\"/>").unwrap_err(),
        "propfind element holds none of allprop, propname, prop\n"
    );
    assert_eq!(
        PropFind::from_xml(b"<propfind xmlns=\"DAV:\"><include/></propfind>").unwrap_err(),
        "propfind element holds none of allprop, propname, prop\n"
    );
    assert_eq!(
        PropFind::from_xml(b"<propfind xmlns=\"DAV:\"><allprop xmlns=\"\"/></propfind>").unwrap_err(),
        "propfind element holds none of allprop, propname, prop\n"
    );
}

#[test]
fn queries_from_nodes() {
    assert_eq!(PropFind::from_nodes(vec![]).unwrap_err(), QueryError::NotPropfind);
    assert_eq!(PropFind::from_nodes(vec![XmlNode::Other]).unwrap_err(), QueryError::NotPropfind);
    assert_eq!(PropFind::from_nodes(vec![XmlNode::End]).unwrap_err(), QueryError::NotPropfind);
    assert_eq!(
        PropFind::from_nodes(vec![start(None, "propfind")]).unwrap_err(),
        QueryError::NotPropfind
    );
    assert_eq!(
        PropFind::from_nodes(vec![XmlNode::Other, dav("propfind"), XmlNode::Other]).unwrap_err(),
        QueryError::NoQuery
    );
    assert_eq!(
        PropFind::from_nodes(vec![dav("propfind"), XmlNode::End]).unwrap_err(),
        QueryError::NoQuery
    );
    assert_eq!(
        PropFind::from_nodes(vec![dav("propfind"), dav("prop"), dav("getetag")]).unwrap_err(),
        QueryError::Unfinished
    );
    assert_eq!(
        PropFind::from_nodes(vec![dav("propfind"), dav("prop"), dav("getetag"), XmlNode::End])
            .unwrap_err(),
        QueryError::Unfinished
    );
    assert!(matches!(
        PropFind::from_nodes(vec![dav("propfind"), XmlNode::Other, dav("allprop")]),
        Ok(PropFind::AllProp)
    ));
    assert!(matches!(
        PropFind::from_nodes(vec![dav("propfind"), dav("propname"), XmlNode::End, XmlNode::End]),
        Ok(PropFind::PropName)
    ));
    let nodes = vec![
        XmlNode::Other,
        dav("propfind"),
        dav("prop"),
        dav("getetag"),
        start(Some("urn:x"), "deep"),
        dav("displayname"),
        XmlNode::End,
        XmlNode::End,
        XmlNode::End,
        dav("resourcetype"),
        XmlNode::Other,
        XmlNode::End,
        XmlNode::End,
        dav("getcontenttype"),
    ];
    assert_eq!(props_of(PropFind::from_nodes(nodes).unwrap()), vec!["GetETag", "ResourceType"]);
}

fn pieces_text(pieces: &[XmlPiece]) -> String {
    let mut out = String::new();
    for p in pieces {
        match p {
            XmlPiece::Start { name, prefix, namespace } => {
                out.push_str(&format!("<{name}|{prefix}|{namespace}>"))
            }
            XmlPiece::End => out.push_str("</>"),
            XmlPiece::Text(t) => out.push_str(&format!("[{t}]")),
        }
    }
    out
}

fn sample() -> Multistatus {
    Multistatus {
        response: vec![
            DavResponse {
                href: "/a & b/".to_owned(),
                found: vec![
                    (Property::ResourceType, PropValue::Collection),
                    (Property::DisplayName, PropValue::Text("a <b>".to_owned())),
                    (
                        Property::CreationDate,
                        PropValue::Time(Timestamp::new(1997, 12, 1, 17, 42, 21).unwrap()),
                    ),
                ],
                missing: vec![],
            },
            DavResponse {
                href: "/a & b/c.txt".to_owned(),
                found: vec![
                    (Property::ResourceType, PropValue::Empty),
                    (Property::GetContentLength, PropValue::Size(1050)),
                    (
                        Property::GetLastModified,
                        PropValue::Time(Timestamp::new(1994, 11, 6, 8, 49, 37).unwrap()),
                    ),
                ],
                missing: vec![
                    Property::GetETag,
                    Property::Other { namespace: Some("urn:x".to_owned()), name: "color".to_owned() },
                    Property::Other { namespace: None, name: "plain".to_owned() },
                ],
            },
        ],
    }
}

#[test]
fn multistatus_pieces_in_order() {
    let empty = Multistatus { response: vec![] };
    assert_eq!(pieces_text(&empty.to_pieces()), "<D:multistatus|D|DAV:></>");
    assert_eq!(
        pieces_text(&sample().to_pieces()),
        [
            "<D:multistatus|D|DAV:>",
            "<D:response||>",
            "<D:href||>[/a & b/]</>",
            "<D:propstat||><D:prop||>",
            "<D:resourcetype||><D:collection||></></>",
            "<D:displayname||>[a <b>]</>",
            "<D:creationdate||>[1997-12-01T17:42:21Z]</>",
            "</><D:status||>[HTTP/1.1 200 OK]</></>",
            "</>",
            "<D:response||>",
            "<D:href||>[/a & b/c.txt]</>",
            "<D:propstat||><D:prop||>",
            "<D:resourcetype||></>",
            "<D:getcontentlength||>[1050]</>",
            "<D:getlastmodified||>[Sun, 06 Nov 1994 08:49:37 GMT]</>",
            "</><D:status||>[HTTP/1.1 200 OK]</></>",
            "<D:propstat||><D:prop||>",
            "<D:getetag||></>",
            "<color||urn:x></>",
            "<plain||></>",
            "</><D:status||>[HTTP/1.1 404 Not Found]</></>",
            "</>",
            "</>",]
        .concat()
    );
}

#[test]
fn multistatus_is_written_as_xml() {
    let xml = sample().to_xml().unwrap();
    assert_eq!(
        xml,
        [
            "<?xml version=\"1.0\" encoding=\"UTF-8\"?>",
            "<D:multistatus xmlns:D=\"DAV:\">",
            "<D:response>",
            "<D:href>/a &amp; b/</D:href>",
            "<D:propstat><D:prop>",
            "<D:resourcetype><D:collection /></D:resourcetype>",
            "<D:displayname>a &lt;b&gt;</D:displayname>",
            "<D:creationdate>1997-12-01T17:42:21Z</D:creationdate>",
            "</D:prop><D:status>HTTP/1.1 200 OK</D:status></D:propstat>",
            "</D:response>",
            "<D:response>",
            "<D:href>/a &amp; b/c.txt</D:href>",
            "<D:propstat><D:prop>",
            "<D:resourcetype />",
            "<D:getcontentlength>1050</D:getcontentlength>",
            "<D:getlastmodified>Sun, 06 Nov 1994 08:49:37 GMT</D:getlastmodified>",
            "</D:prop><D:status>HTTP/1.1 200 OK</D:status></D:propstat>",
            "<D:propstat><D:prop>",
            "<D:getetag />",
            "<color xmlns=\"urn:x\" />",
            "<plain />",
            "</D:prop><D:status>HTTP/1.1 404 Not Found</D:status></D:propstat>",
            "</D:response>",
            "</D:multistatus>",]
        .concat()
    );
}

#[test]
fn propfind_is_answered_with_a_document() {
    let dav = DandiDav { title: "t".to_owned(), prefer_s3_redirects: false };
    let mut replies = Vec::new();
    match dav.propfind(&DavPath::Root, FiniteDepth::One, &PropFind::PropName, &mut replies) {
        Step::Done(Ok(r)) => {
            assert_eq!(r.status, 207);
            assert_eq!(
                r.headers,
                vec![("Content-Type".to_owned(), "text/xml; charset=utf-8".to_owned())]
            );
            match &r.body {
                Body::Text(xml) => {
                    assert_eq!(xml.matches("<D:response>").count(), 3);
                    assert!(xml.contains("<D:href>/</D:href>"));
                    assert!(xml.contains("<D:href>/dandisets/</D:href>"));
                    assert!(xml.contains("<D:href>/zarrs/</D:href>"));
                }
                other => panic!("unexpected body {other:?}"),
            }
        }
        other => panic!("unexpected step {other:?}"),
    }
    match dav.propfind(&DavPath::Root, FiniteDepth::Zero, &PropFind::AllProp, &mut replies) {
        Step::Done(Ok(r)) => match &r.body {
            Body::Text(xml) => assert_eq!(xml.matches("<D:response>").count(), 1),
            other => panic!("unexpected body {other:?}"),
        },
        other => panic!("unexpected step {other:?}"),
    }
}

#[test]
fn document_of_a_listing() {
    let dav = DandiDav { title: "t".to_owned(), prefer_s3_redirects: false };
    let item = DavItem {
        path: "x/y.bin".parse().unwrap(),
        created: None,
        modified: None,
        content_type: "application/octet-stream".to_owned(),
        size: Some(3),
        etag: None,
        kind: ResourceKind::Blob,
        content: DavContent::Missing,
        metadata_url: None,
    };
    let col = DavCollection {
        path: Some("x/".parse().unwrap()),
        created: None,
        modified: None,
        size: None,
        kind: ResourceKind::Directory,
        metadata_url: None,
    };
    let resources = vec![DavResource::Collection(col), DavResource::Item(item)];
    let document = Multistatus::new(&PropFind::Prop(vec![Property::GetContentLength]), &resources);
    let r = dav.multistatus_response(&document).unwrap();
    match &r.body {
        Body::Text(xml) => {
            assert!(xml.contains("<D:getcontentlength>3</D:getcontentlength>"));
            assert_eq!(xml.matches("404 Not Found").count(), 1);
            assert_eq!(xml.matches("200 OK").count(), 2);
        }
        other => panic!("unexpected body {other:?}"),
    }
}
