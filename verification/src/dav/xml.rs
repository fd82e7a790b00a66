//! The content of `PROPFIND` requests and of the multistatus documents that
//! answer them, as plain values.

use crate::dav::types::{resource_views, text_of, DavResource, DavResourceView};
use crate::paths::segments::{dir_name, path_name};
use crate::dav::time::Timestamp;
use crate::dav::util::slice_text;
use vstd::prelude::*;
use vstd::string::*;

verus! {

/// A property of a resource that a `PROPFIND` request can ask for.
#[derive(Debug)]
pub enum Property {
    CreationDate,
    DisplayName,
    GetContentLength,
    GetContentType,
    GetETag,
    GetLastModified,
    ResourceType,
    /// A property that the gateway does not know, by its namespace and its
    /// name in it.
    Other { namespace: Option<String>, name: String },
}

/// A [`Property`] as plain values.
pub enum PropertyView {
    CreationDate,
    DisplayName,
    GetContentLength,
    GetContentType,
    GetETag,
    GetLastModified,
    ResourceType,
    Other { namespace: Option<Seq<char>>, name: Seq<char> },
}

impl View for Property {
    type V = PropertyView;

    open spec fn view(&self) -> PropertyView {
        match self {
            Property::CreationDate => PropertyView::CreationDate,
            Property::DisplayName => PropertyView::DisplayName,
            Property::GetContentLength => PropertyView::GetContentLength,
            Property::GetContentType => PropertyView::GetContentType,
            Property::GetETag => PropertyView::GetETag,
            Property::GetLastModified => PropertyView::GetLastModified,
            Property::ResourceType => PropertyView::ResourceType,
            Property::Other { namespace, name } => PropertyView::Other {
                namespace: text_of(*namespace),
                name: name@,
            },
        }
    }
}

impl Clone for Property {
    fn clone(&self) -> (p: Self)
        ensures
            p == *self,
    {
        match self {
            Property::CreationDate => Property::CreationDate,
            Property::DisplayName => Property::DisplayName,
            Property::GetContentLength => Property::GetContentLength,
            Property::GetContentType => Property::GetContentType,
            Property::GetETag => Property::GetETag,
            Property::GetLastModified => Property::GetLastModified,
            Property::ResourceType => Property::ResourceType,
            Property::Other { namespace, name } => Property::Other {
                namespace: match namespace {
                    Some(ns) => Some(ns.clone()),
                    None => None,
                },
                name: name.clone(),
            },
        }
    }
}

/// The views of a list of properties.
pub open spec fn property_views(props: Seq<Property>) -> Seq<PropertyView> {
    props.map_values(|p: Property| p@)
}

/// The value of a property.
#[derive(Debug)]
pub enum PropValue {
    /// No content: the value of a property whose name alone was asked for,
    /// and the resource type of an item.
    Empty,
    /// The resource type of a collection.
    Collection,
    Text(String),
    /// A number of bytes.
    Size(i64),
    /// A point in time.
    Time(Timestamp),
}

/// A [`PropValue`] as plain values.
pub enum PropValueView {
    Empty,
    Collection,
    Text(Seq<char>),
    Size(i64),
    Time(Timestamp),
}

impl View for PropValue {
    type V = PropValueView;

    open spec fn view(&self) -> PropValueView {
        match self {
            PropValue::Empty => PropValueView::Empty,
            PropValue::Collection => PropValueView::Collection,
            PropValue::Text(s) => PropValueView::Text(s@),
            PropValue::Size(n) => PropValueView::Size(*n),
            PropValue::Time(t) => PropValueView::Time(*t),
        }
    }
}

/// What a `PROPFIND` request asks for.
#[derive(Debug)]
pub enum PropFind {
    /// All properties with their values.  This is also what a request
    /// without a body asks for.
    AllProp,
    /// The names of all properties.
    PropName,
    /// The listed properties with their values.
    Prop(Vec<Property>),
}

/// A [`PropFind`] as plain values.
pub enum PropFindView {
    AllProp,
    PropName,
    Prop(Seq<PropertyView>),
}

impl View for PropFind {
    type V = PropFindView;

    open spec fn view(&self) -> PropFindView {
        match self {
            PropFind::AllProp => PropFindView::AllProp,
            PropFind::PropName => PropFindView::PropName,
            PropFind::Prop(props) => PropFindView::Prop(property_views(props@)),
        }
    }
}

/// The name of a resource: the last segment of its address.  The root has
/// none.
pub open spec fn resource_name(r: DavResourceView) -> Option<Seq<char>> {
    match r {
        DavResourceView::Collection(col) => match col.path {
            Some(p) => Some(dir_name(p)),
            None => None,
        },
        DavResourceView::Item(item) => Some(path_name(item.path)),
    }
}

/// The link to a resource: its address behind a slash; for the root, the
/// slash alone.
pub open spec fn resource_href(r: DavResourceView) -> Seq<char> {
    match r {
        DavResourceView::Collection(col) => match col.path {
            Some(p) => seq!['/'] + p,
            None => seq!['/'],
        },
        DavResourceView::Item(item) => seq!['/'] + item.path,
    }
}

/// A time as the value of a property, where there is one.
pub open spec fn time_value(t: Option<Timestamp>) -> Option<PropValueView> {
    match t {
        Some(t) => Some(PropValueView::Time(t)),
        None => None,
    }
}

/// A text as the value of a property, where there is one.
pub open spec fn text_value(s: Option<Seq<char>>) -> Option<PropValueView> {
    match s {
        Some(s) => Some(PropValueView::Text(s)),
        None => None,
    }
}

/// The value that the resource `r` has for the property `p`, if it has one.
/// Every resource has a resource type.  Only an item has a content type and
/// an entity tag.  A property that the gateway does not know has no value.
pub open spec fn property_value(r: DavResourceView, p: PropertyView) -> Option<PropValueView> {
    match p {
        PropertyView::CreationDate => time_value(
            match r {
                DavResourceView::Collection(col) => col.created,
                DavResourceView::Item(item) => item.created,
            },
        ),
        PropertyView::DisplayName => text_value(resource_name(r)),
        PropertyView::GetContentLength => match r {
            DavResourceView::Collection(col) => match col.size {
                Some(n) => Some(PropValueView::Size(n)),
                None => None,
            },
            DavResourceView::Item(item) => match item.size {
                Some(n) => Some(PropValueView::Size(n)),
                None => None,
            },
        },
        PropertyView::GetContentType => match r {
            DavResourceView::Collection(_) => None,
            DavResourceView::Item(item) => Some(PropValueView::Text(item.content_type)),
        },
        PropertyView::GetETag => match r {
            DavResourceView::Collection(_) => None,
            DavResourceView::Item(item) => text_value(item.etag),
        },
        PropertyView::GetLastModified => time_value(
            match r {
                DavResourceView::Collection(col) => col.modified,
                DavResourceView::Item(item) => item.modified,
            },
        ),
        PropertyView::ResourceType => match r {
            DavResourceView::Collection(_) => Some(PropValueView::Collection),
            DavResourceView::Item(_) => Some(PropValueView::Empty),
        },
        PropertyView::Other { .. } => None,
    }
}

/// The properties that the gateway knows, in the order in which it reports
/// them.
pub open spec fn known_properties() -> Seq<PropertyView> {
    seq![
        PropertyView::CreationDate,
        PropertyView::DisplayName,
        PropertyView::GetContentLength,
        PropertyView::GetContentType,
        PropertyView::GetETag,
        PropertyView::GetLastModified,
        PropertyView::ResourceType,
    ]
}

/// Those of `props` that `r` has, in order, each with its value; or each
/// with no content, where only the names are asked for.
pub open spec fn found_properties(
    r: DavResourceView,
    props: Seq<PropertyView>,
    names_only: bool,
) -> Seq<(PropertyView, PropValueView)>
    decreases props.len(),
{
    if props.len() == 0 {
        Seq::<(PropertyView, PropValueView)>::empty()
    } else {
        let before = found_properties(r, props.drop_last(), names_only);
        match property_value(r, props.last()) {
            Some(value) => before.push(
                (
                    props.last(),
                    if names_only {
                        PropValueView::Empty
                    } else {
                        value
                    },
                ),
            ),
            None => before,
        }
    }
}

/// Those of `props` that `r` does not have, in order.
pub open spec fn missing_properties(r: DavResourceView, props: Seq<PropertyView>) -> Seq<
    PropertyView,
>
    decreases props.len(),
{
    if props.len() == 0 {
        Seq::<PropertyView>::empty()
    } else {
        let before = missing_properties(r, props.drop_last());
        match property_value(r, props.last()) {
            Some(_) => before,
            None => before.push(props.last()),
        }
    }
}

/// What a multistatus document says of one resource.
#[derive(Debug)]
pub struct DavResponse {
    /// The link to the resource.
    pub href: String,
    /// The properties that the resource has, reported with status 200.
    pub found: Vec<(Property, PropValue)>,
    /// The properties that were asked for and that the resource does not
    /// have, reported with status 404.
    pub missing: Vec<Property>,
}

/// A [`DavResponse`] as plain values.
pub struct DavResponseView {
    pub href: Seq<char>,
    pub found: Seq<(PropertyView, PropValueView)>,
    pub missing: Seq<PropertyView>,
}

/// The views of a list of properties with their values.
pub open spec fn found_views(found: Seq<(Property, PropValue)>) -> Seq<
    (PropertyView, PropValueView),
> {
    found.map_values(|f: (Property, PropValue)| (f.0@, f.1@))
}

impl View for DavResponse {
    type V = DavResponseView;

    open spec fn view(&self) -> DavResponseView {
        DavResponseView {
            href: self.href@,
            found: found_views(self.found@),
            missing: property_views(self.missing@),
        }
    }
}

/// What a request that asks for `query` is told of the resource `r`.  Asked
/// for all properties, or for their names, it is told those that the
/// resource has.  Asked for a list of properties, it is told those of the
/// list that the resource has, and which of the list it lacks.
pub open spec fn response_for(query: PropFindView, r: DavResourceView) -> DavResponseView {
    match query {
        PropFindView::AllProp => DavResponseView {
            href: resource_href(r),
            found: found_properties(r, known_properties(), false),
            missing: Seq::<PropertyView>::empty(),
        },
        PropFindView::PropName => DavResponseView {
            href: resource_href(r),
            found: found_properties(r, known_properties(), true),
            missing: Seq::<PropertyView>::empty(),
        },
        PropFindView::Prop(props) => DavResponseView {
            href: resource_href(r),
            found: found_properties(r, props, false),
            missing: missing_properties(r, props),
        },
    }
}

impl DavResource {
    /// The name of the resource: the last segment of its address.
    pub fn name(&self) -> (name: Option<&str>)
        ensures
            slice_text(name) == resource_name(self@),
    {
        match self {
            DavResource::Collection(col) => match &col.path {
                Some(p) => Some(p.name_str()),
                None => None,
            },
            DavResource::Item(item) => Some(item.path.name_str()),
        }
    }

    /// The link to the resource.
    pub fn href(&self) -> (href: String)
        ensures
            href@ == resource_href(self@),
    {
        proof {
            reveal_strlit("/");
            assert("/"@ =~= seq!['/']);
        }
        let slash = "/".to_owned();
        match self {
            DavResource::Collection(col) => match &col.path {
                Some(p) => slash.concat(p.as_str()),
                None => slash,
            },
            DavResource::Item(item) => slash.concat(item.path.as_str()),
        }
    }

    /// The value that the resource has for the property `p`, if it has one.
    pub fn property(&self, p: &Property) -> (value: Option<PropValue>)
        ensures
            match value {
                Some(v) => property_value(self@, p@) == Some(v@),
                None => property_value(self@, p@) is None,
            },
    {
        match p {
            Property::CreationDate => {
                let created = match self {
                    DavResource::Collection(col) => col.created,
                    DavResource::Item(item) => item.created,
                };
                match created {
                    Some(t) => Some(PropValue::Time(t)),
                    None => None,
                }
            },
            Property::DisplayName => match self.name() {
                Some(name) => Some(PropValue::Text(name.to_owned())),
                None => None,
            },
            Property::GetContentLength => {
                let size = match self {
                    DavResource::Collection(col) => col.size,
                    DavResource::Item(item) => item.size,
                };
                match size {
                    Some(n) => Some(PropValue::Size(n)),
                    None => None,
                }
            },
            Property::GetContentType => match self {
                DavResource::Collection(_) => None,
                DavResource::Item(item) => Some(PropValue::Text(item.content_type.clone())),
            },
            Property::GetETag => match self {
                DavResource::Collection(_) => None,
                DavResource::Item(item) => match &item.etag {
                    Some(tag) => Some(PropValue::Text(tag.clone())),
                    None => None,
                },
            },
            Property::GetLastModified => {
                let modified = match self {
                    DavResource::Collection(col) => col.modified,
                    DavResource::Item(item) => item.modified,
                };
                match modified {
                    Some(t) => Some(PropValue::Time(t)),
                    None => None,
                }
            },
            Property::ResourceType => match self {
                DavResource::Collection(_) => Some(PropValue::Collection),
                DavResource::Item(_) => Some(PropValue::Empty),
            },
            Property::Other { .. } => None,
        }
    }
}

/// The properties that the gateway knows, in the order in which it reports
/// them.
pub fn all_properties() -> (props: Vec<Property>)
    ensures
        property_views(props@) == known_properties(),
{
    let mut props: Vec<Property> = Vec::new();
    props.push(Property::CreationDate);
    props.push(Property::DisplayName);
    props.push(Property::GetContentLength);
    props.push(Property::GetContentType);
    props.push(Property::GetETag);
    props.push(Property::GetLastModified);
    props.push(Property::ResourceType);
    assert(property_views(props@) =~= known_properties());
    props
}

/// Sorts `props` into those that `r` has, with their values or, where
/// `names_only` is set, without, and those that it lacks.
pub fn sort_properties(r: &DavResource, props: &Vec<Property>, names_only: bool) -> (out: (
    Vec<(Property, PropValue)>,
    Vec<Property>,
))
    ensures
        found_views(out.0@) == found_properties(r@, property_views(props@), names_only),
        property_views(out.1@) == missing_properties(r@, property_views(props@)),
{
    let ghost views = property_views(props@);
    let mut found: Vec<(Property, PropValue)> = Vec::new();
    let mut missing: Vec<Property> = Vec::new();
    let mut i: usize = 0;
    assert(views.take(0) =~= Seq::<PropertyView>::empty());
    assert(found_views(found@) =~= Seq::<(PropertyView, PropValueView)>::empty());
    assert(property_views(missing@) =~= Seq::<PropertyView>::empty());
    while i < props.len()
        invariant
            i <= props.len(),
            views == property_views(props@),
            found_views(found@) == found_properties(r@, views.take(i as int), names_only),
            property_views(missing@) == missing_properties(r@, views.take(i as int)),
        decreases props.len() - i,
    {
        let ghost found_before = found_views(found@);
        let ghost missing_before = property_views(missing@);
        proof {
            assert(views.take(i + 1).drop_last() =~= views.take(i as int));
            assert(views.take(i + 1).last() == props@[i as int]@);
        }
        let p = props[i].clone();
        match r.property(&p) {
            Some(value) => {
                let shown = if names_only {
                    PropValue::Empty
                } else {
                    value
                };
                let ghost pair = (p@, shown@);
                found.push((p, shown));
                assert(found_views(found@) =~= found_before.push(pair));
            },
            None => {
                let ghost pv = p@;
                missing.push(p);
                assert(property_views(missing@) =~= missing_before.push(pv));
            },
        }
        i += 1;
    }
    assert(views.take(props@.len() as int) =~= views);
    (found, missing)
}

impl PropFind {
    /// What a request that asks for `self` is told of the resource `res`.
    pub fn find(&self, res: &DavResource) -> (response: DavResponse)
        ensures
            response@ == response_for(self@, res@),
    {
        let href = res.href();
        match self {
            PropFind::AllProp => {
                let (found, _) = sort_properties(res, &all_properties(), false);
                let missing: Vec<Property> = Vec::new();
                assert(property_views(missing@) =~= Seq::<PropertyView>::empty());
                DavResponse { href, found, missing }
            },
            PropFind::PropName => {
                let (found, _) = sort_properties(res, &all_properties(), true);
                let missing: Vec<Property> = Vec::new();
                assert(property_views(missing@) =~= Seq::<PropertyView>::empty());
                DavResponse { href, found, missing }
            },
            PropFind::Prop(props) => {
                let (found, missing) = sort_properties(res, props, false);
                DavResponse { href, found, missing }
            },
        }
    }
}

/// The content of a multistatus document: one response for each resource
/// that it reports.
#[derive(Debug)]
pub struct Multistatus {
    pub response: Vec<DavResponse>,
}

/// The views of a list of responses.
pub open spec fn response_views(responses: Seq<DavResponse>) -> Seq<DavResponseView> {
    responses.map_values(|r: DavResponse| r@)
}

/// The responses to a request that asks for `query`, of each of
/// `resources` in order.
pub open spec fn responses_for(query: PropFindView, resources: Seq<DavResourceView>) -> Seq<
    DavResponseView,
> {
    resources.map_values(|r: DavResourceView| response_for(query, r))
}

impl Multistatus {
    /// The document that tells a request that asks for `query` of each of
    /// `resources`, in order.
    pub fn new(query: &PropFind, resources: &Vec<DavResource>) -> (ms: Multistatus)
        ensures
            response_views(ms.response@) == responses_for(query@, resource_views(resources@)),
            ms.response@.len() == resources@.len(),
    {
        let mut response: Vec<DavResponse> = Vec::new();
        let mut i: usize = 0;
        while i < resources.len()
            invariant
                i <= resources.len(),
                response@.len() == i,
                forall|k: int|
                    0 <= k < i ==> (#[trigger] response@[k])@ == response_for(
                        query@,
                        resources@[k]@,
                    ),
            decreases resources.len() - i,
        {
            response.push(query.find(&resources[i]));
            i += 1;
        }
        assert(response_views(response@) =~= responses_for(query@, resource_views(resources@)));
        Multistatus { response }
    }
}

} // verus!
