//! Builder for WebDAV multistatus XML responses.
use vstd::prelude::*;

use super::{spec_ns_prefix, APPLE_NS, CALDAV_NS, CS_NS, DAV_NS};

verus! {

/// A single property value to include in a response.
pub struct PropValue {
    pub name: String,
    pub namespace: String,
    pub value: PropContent,
}

/// Content of a property — text, XML fragment, or empty.
pub enum PropContent {
    Text(String),
    Xml(String),
    Empty,
}

/// The value of a `PropContent`.
pub enum PropContentView {
    Text(Seq<char>),
    Xml(Seq<char>),
    Empty,
}

/// The value of a `PropValue`.
pub struct PropValueView {
    pub name: Seq<char>,
    pub namespace: Seq<char>,
    pub value: PropContentView,
}

impl View for PropContent {
    type V = PropContentView;

    open spec fn view(&self) -> PropContentView {
        match self {
            PropContent::Text(t) => PropContentView::Text(t@),
            PropContent::Xml(x) => PropContentView::Xml(x@),
            PropContent::Empty => PropContentView::Empty,
        }
    }
}

impl View for PropValue {
    type V = PropValueView;

    open spec fn view(&self) -> PropValueView {
        PropValueView { name: self.name@, namespace: self.namespace@, value: self.value@ }
    }
}

/// The views of a sequence of property values.
pub open spec fn prop_views(ps: Seq<PropValue>) -> Seq<PropValueView> {
    ps.map_values(|p: PropValue| p@)
}

// ---------------------------------------------------------------------------
// The text the writer produces
// ---------------------------------------------------------------------------

/// The escaped form of one character (`quick_xml::escape::escape`).
pub open spec fn escape_char(c: char) -> Seq<char> {
    if c == '<' {
        "&lt;"@
    } else if c == '>' {
        "&gt;"@
    } else if c == '\'' {
        "&apos;"@
    } else if c == '&' {
        "&amp;"@
    } else if c == '"' {
        "&quot;"@
    } else {
        seq![c]
    }
}

/// Text with `<`, `>`, `'`, `&` and `"` replaced by their entities.
pub open spec fn xml_escape(s: Seq<char>) -> Seq<char>
    decreases s.len(),
{
    if s.len() == 0 {
        seq![]
    } else {
        xml_escape(s.drop_last()) + escape_char(s.last())
    }
}

/// `quick_xml::escape::escape`: replaces `<`, `>`, `'`, `&` and `"` by
/// `&lt;`, `&gt;`, `&apos;`, `&amp;` and `&quot;` and keeps every other
/// character (the escaper works on UTF-8 bytes and matches ASCII bytes only,
/// so characters outside ASCII pass through unchanged).
#[verifier::external_body]
pub fn escape_text(s: &str) -> (r: String)
    ensures
        r@ == xml_escape(s@),
{
    quick_xml::escape::escape(s).into_owned()
}

/// `<name>`
pub open spec fn start_tag(name: Seq<char>) -> Seq<char> {
    "<"@ + name + ">"@
}

/// `</name>`
pub open spec fn end_tag(name: Seq<char>) -> Seq<char> {
    "</"@ + name + ">"@
}

/// `<name/>`
pub open spec fn empty_tag(name: Seq<char>) -> Seq<char> {
    "<"@ + name + "/>"@
}

/// An element holding escaped text.
pub open spec fn text_element(name: Seq<char>, text: Seq<char>) -> Seq<char> {
    start_tag(name) + xml_escape(text) + end_tag(name)
}

/// The prefixed element name of a property.
pub open spec fn spec_prefix_name(namespace: Seq<char>, local_name: Seq<char>) -> Seq<char> {
    spec_ns_prefix(namespace) + ":"@ + local_name
}

/// One property inside `<D:prop>`: text is escaped, XML fragments are
/// written as they are, empty properties become empty elements.
pub open spec fn prop_text(p: PropValueView) -> Seq<char> {
    let n = spec_prefix_name(p.namespace, p.name);
    match p.value {
        PropContentView::Text(t) => text_element(n, t),
        PropContentView::Xml(x) => start_tag(n) + x + end_tag(n),
        PropContentView::Empty => empty_tag(n),
    }
}

/// The properties, one after the other.
pub open spec fn props_text(ps: Seq<PropValueView>) -> Seq<char>
    decreases ps.len(),
{
    if ps.len() == 0 {
        seq![]
    } else {
        props_text(ps.drop_last()) + prop_text(ps.last())
    }
}

/// Empty elements for the given (already prefixed) names.
pub open spec fn empties_text(names: Seq<Seq<char>>) -> Seq<char>
    decreases names.len(),
{
    if names.len() == 0 {
        seq![]
    } else {
        empties_text(names.drop_last()) + empty_tag(names.last())
    }
}

/// A propstat with the given prop contents and status line.
pub open spec fn propstat_text(props: Seq<char>, status: Seq<char>) -> Seq<char> {
    start_tag("D:propstat"@) + start_tag("D:prop"@) + props + end_tag("D:prop"@) + text_element(
        "D:status"@,
        status,
    ) + end_tag("D:propstat"@)
}

/// One `<D:response>`: the href, a 200 propstat for the found properties
/// (when there are any) and a 404 propstat for the missing names (when there
/// are any).
pub open spec fn response_text(
    href: Seq<char>,
    found: Seq<PropValueView>,
    not_found: Seq<Seq<char>>,
) -> Seq<char> {
    start_tag("D:response"@) + text_element("D:href"@, href) + (if found.len() > 0 {
        propstat_text(props_text(found), "HTTP/1.1 200 OK"@)
    } else {
        seq![]
    }) + (if not_found.len() > 0 {
        propstat_text(empties_text(not_found), "HTTP/1.1 404 Not Found"@)
    } else {
        seq![]
    }) + end_tag("D:response"@)
}

/// The XML declaration and the opening `<D:multistatus>` with its four
/// namespace declarations.
pub open spec fn header_text() -> Seq<char> {
    "<?xml version=\"1.0\" encoding=\"utf-8\"?>"@ + "<D:multistatus"@ + attribute_text(
        "xmlns:D"@,
        DAV_NS@,
    ) + attribute_text("xmlns:C"@, CALDAV_NS@) + attribute_text("xmlns:A"@, APPLE_NS@)
        + attribute_text("xmlns:CS"@, CS_NS@) + ">"@
}

/// ` key="escaped value"`
pub open spec fn attribute_text(key: Seq<char>, value: Seq<char>) -> Seq<char> {
    " "@ + key + "=\""@ + xml_escape(value) + "\""@
}

/// A `<D:response>` that carries a status for the href itself and no
/// properties (as RFC 6578 reports a member that was removed).
pub open spec fn status_response_text(href: Seq<char>, status: Seq<char>) -> Seq<char> {
    start_tag("D:response"@) + text_element("D:href"@, href) + text_element("D:status"@, status)
        + end_tag("D:response"@)
}

/// A `<D:sync-token>` element.
pub open spec fn sync_token_text(token: Seq<char>) -> Seq<char> {
    text_element("D:sync-token"@, token)
}

/// Builder for WebDAV multistatus XML responses.
pub struct MultistatusBuilder {
    out: String,
}

impl View for MultistatusBuilder {
    type V = Seq<char>;

    /// The XML written so far.
    closed spec fn view(&self) -> Seq<char> {
        self.out@
    }
}

/// Appends `s` to `out`.
fn append(out: &mut String, s: &str)
    ensures
        final(out)@ == old(out)@ + s@,
{
    out.append(s);
}

/// Map a namespace URI + local name to a prefixed element name.
pub fn prefix_name(namespace: &str, local_name: &str) -> (r: String)
    ensures
        r@ == spec_prefix_name(namespace@, local_name@),
{
    let mut r = String::new();
    append(&mut r, super::properties::ns_prefix(namespace));
    append(&mut r, ":");
    append(&mut r, local_name);
    r
}

impl MultistatusBuilder {
    fn open_tag(&mut self, name: &str)
        ensures
            final(self)@ == old(self)@ + start_tag(name@),
    {
        append(&mut self.out, "<");
        append(&mut self.out, name);
        append(&mut self.out, ">");
    }

    fn close_tag(&mut self, name: &str)
        ensures
            final(self)@ == old(self)@ + end_tag(name@),
    {
        append(&mut self.out, "</");
        append(&mut self.out, name);
        append(&mut self.out, ">");
    }

    fn write_empty(&mut self, name: &str)
        ensures
            final(self)@ == old(self)@ + empty_tag(name@),
    {
        append(&mut self.out, "<");
        append(&mut self.out, name);
        append(&mut self.out, "/>");
    }

    fn write_text(&mut self, name: &str, text: &str)
        ensures
            final(self)@ == old(self)@ + text_element(name@, text@),
    {
        self.open_tag(name);
        let escaped = escape_text(text);
        append(&mut self.out, escaped.as_str());
        self.close_tag(name);
    }

    fn write_attribute(&mut self, key: &str, value: &str)
        ensures
            final(self)@ == old(self)@ + attribute_text(key@, value@),
    {
        append(&mut self.out, " ");
        append(&mut self.out, key);
        append(&mut self.out, "=\"");
        let escaped = escape_text(value);
        append(&mut self.out, escaped.as_str());
        append(&mut self.out, "\"");
    }

    /// Start building a multistatus response.
    pub fn new() -> (b: Self)
        ensures
            b@ == header_text(),
    {
        let mut b = MultistatusBuilder { out: String::new() };
        append(&mut b.out, "<?xml version=\"1.0\" encoding=\"utf-8\"?>");
        append(&mut b.out, "<D:multistatus");
        b.write_attribute("xmlns:D", DAV_NS);
        b.write_attribute("xmlns:C", CALDAV_NS);
        b.write_attribute("xmlns:A", APPLE_NS);
        b.write_attribute("xmlns:CS", CS_NS);
        append(&mut b.out, ">");
        assert(b@ =~= header_text());
        b
    }

    fn write_prop(&mut self, p: &PropValue)
        ensures
            final(self)@ == old(self)@ + prop_text(p@),
    {
        let prefixed = prefix_name(p.namespace.as_str(), p.name.as_str());
        match &p.value {
            PropContent::Text(text) => {
                self.write_text(prefixed.as_str(), text.as_str());
            },
            PropContent::Xml(xml) => {
                self.open_tag(prefixed.as_str());
                append(&mut self.out, xml.as_str());
                self.close_tag(prefixed.as_str());
            },
            PropContent::Empty => {
                self.write_empty(prefixed.as_str());
            },
        }
    }

    fn write_found(&mut self, found_props: &Vec<PropValue>)
        ensures
            final(self)@ == old(self)@ + (if found_props@.len() > 0 {
                propstat_text(props_text(prop_views(found_props@)), "HTTP/1.1 200 OK"@)
            } else {
                seq![]
            }),
    {
        if found_props.len() == 0 {
            assert(self@ =~= self@ + seq![]);
            return;
        }
        let ghost start = self@;
        self.open_tag("D:propstat");
        self.open_tag("D:prop");
        let ghost base = self@;
        let mut i: usize = 0;
        while i < found_props.len()
            invariant
                i <= found_props@.len(),
                self@ == base + props_text(prop_views(found_props@).take(i as int)),
            decreases found_props@.len() - i,
        {
            self.write_prop(&found_props[i]);
            assert(prop_views(found_props@).take(i + 1).drop_last() =~= prop_views(
                found_props@,
            ).take(i as int));
            i = i + 1;
        }
        assert(prop_views(found_props@).take(found_props@.len() as int) =~= prop_views(
            found_props@,
        ));
        let ghost props = self@;
        self.close_tag("D:prop");
        self.write_text("D:status", "HTTP/1.1 200 OK");
        self.close_tag("D:propstat");
        assert(self@ =~= start + propstat_text(
            props_text(prop_views(found_props@)),
            "HTTP/1.1 200 OK"@,
        ));
    }

    fn write_not_found(&mut self, names: &Vec<String>)
        ensures
            final(self)@ == old(self)@ + (if names@.len() > 0 {
                propstat_text(
                    empties_text(crate::text::string_views(names@)),
                    "HTTP/1.1 404 Not Found"@,
                )
            } else {
                seq![]
            }),
    {
        if names.len() == 0 {
            assert(self@ =~= self@ + seq![]);
            return;
        }
        let ghost start = self@;
        self.open_tag("D:propstat");
        self.open_tag("D:prop");
        let ghost base = self@;
        let mut i: usize = 0;
        while i < names.len()
            invariant
                i <= names@.len(),
                self@ == base + empties_text(crate::text::string_views(names@).take(i as int)),
            decreases names@.len() - i,
        {
            self.write_empty(names[i].as_str());
            assert(crate::text::string_views(names@).take(i + 1).drop_last()
                =~= crate::text::string_views(names@).take(i as int));
            i = i + 1;
        }
        assert(crate::text::string_views(names@).take(names@.len() as int)
            =~= crate::text::string_views(names@));
        self.close_tag("D:prop");
        self.write_text("D:status", "HTTP/1.1 404 Not Found");
        self.close_tag("D:propstat");
        assert(self@ =~= start + propstat_text(
            empties_text(crate::text::string_views(names@)),
            "HTTP/1.1 404 Not Found"@,
        ));
    }

    /// Add a response entry for a given href with found and not-found properties.
    pub fn add_response(
        &mut self,
        href: &str,
        found_props: Vec<PropValue>,
        not_found_props: Vec<String>,
    )
        ensures
            final(self)@ == old(self)@ + response_text(
                href@,
                prop_views(found_props@),
                crate::text::string_views(not_found_props@),
            ),
    {
        let ghost start = self@;
        self.open_tag("D:response");
        self.write_text("D:href", href);
        let ghost a = self@;
        self.write_found(&found_props);
        let ghost b = self@;
        self.write_not_found(&not_found_props);
        let ghost c = self@;
        self.close_tag("D:response");
        assert(self@ =~= start + response_text(
            href@,
            prop_views(found_props@),
            crate::text::string_views(not_found_props@),
        ));
    }

    /// Add a response entry that reports a status for the href itself.
    pub fn add_status_response(&mut self, href: &str, status: &str)
        ensures
            final(self)@ == old(self)@ + status_response_text(href@, status@),
    {
        let ghost start = self@;
        self.open_tag("D:response");
        self.write_text("D:href", href);
        self.write_text("D:status", status);
        self.close_tag("D:response");
        assert(self@ =~= start + status_response_text(href@, status@));
    }

    /// Add a sync-token element (used in sync-collection response).
    pub fn add_sync_token(&mut self, token: &str)
        ensures
            final(self)@ == old(self)@ + sync_token_text(token@),
    {
        self.write_text("D:sync-token", token);
    }

    /// The XML text of the finished document.
    pub fn build_text(self) -> (xml: String)
        ensures
            xml@ == self@ + end_tag("D:multistatus"@),
    {
        let mut b = self;
        b.close_tag("D:multistatus");
        b.out
    }

    /// Finish building and return the XML bytes (UTF-8).
    pub fn build(self) -> (bytes: Vec<u8>)
        ensures
            bytes@ == vstd::utf8::encode_utf8(self@ + end_tag("D:multistatus"@)),
    {
        let xml = self.build_text();
        vstd::slice::slice_to_vec(xml.as_str().as_bytes())
    }
}

} // verus!
