//! The XML events of a request body, as quick-xml's reader yields them.
use vstd::prelude::*;

use quick_xml::events::Event;
use quick_xml::events::Event::{Empty, Eof, Start, Text};
use quick_xml::reader::Reader;
use std::io::Cursor;

use crate::text::string_from_utf8;

verus! {

use ReadStep::{Failed, Token};

/// The kind of an XML event.
#[derive(Clone, Copy, PartialEq, Eq, Debug)]
pub enum XmlKind {
    /// `<name ...>`
    Start,
    /// `<name .../>`
    Empty,
    /// `</name>`
    End,
    /// Character data between tags (whitespace-only text is skipped).
    Text,
    /// Declarations, comments, CDATA, processing instructions, doctypes.
    Other,
}

/// One attribute of a start or empty tag, as raw bytes.
pub struct XmlAttr {
    pub key: Vec<u8>,
    pub value: Vec<u8>,
}

/// One XML event with the parts the request parsers read.
pub struct XmlToken {
    pub kind: XmlKind,
    /// Qualified name (tags only).
    pub name: Vec<u8>,
    /// Well-formed attributes in document order (start and empty tags only).
    pub attrs: Vec<XmlAttr>,
    /// Escaped character data (text events only).
    pub raw_text: Vec<u8>,
}

/// The events of a document up to its end or up to the first error.
pub struct XmlScan {
    pub tokens: Vec<XmlToken>,
    /// Whether reading stopped at an error rather than at the end.
    pub failed: bool,
}

pub struct XmlAttrView {
    pub key: Seq<u8>,
    pub value: Seq<u8>,
}

pub struct XmlTokenView {
    pub kind: XmlKind,
    pub name: Seq<u8>,
    pub attrs: Seq<XmlAttrView>,
    pub raw_text: Seq<u8>,
}

pub struct XmlScanView {
    pub tokens: Seq<XmlTokenView>,
    pub failed: bool,
}

impl View for XmlAttr {
    type V = XmlAttrView;

    open spec fn view(&self) -> XmlAttrView {
        XmlAttrView { key: self.key@, value: self.value@ }
    }
}

/// The views of attributes.
pub open spec fn attr_views(a: Seq<XmlAttr>) -> Seq<XmlAttrView> {
    a.map_values(|x: XmlAttr| x@)
}

impl View for XmlToken {
    type V = XmlTokenView;

    open spec fn view(&self) -> XmlTokenView {
        XmlTokenView {
            kind: self.kind,
            name: self.name@,
            attrs: attr_views(self.attrs@),
            raw_text: self.raw_text@,
        }
    }
}

/// The views of tokens.
pub open spec fn token_views(t: Seq<XmlToken>) -> Seq<XmlTokenView> {
    t.map_values(|x: XmlToken| x@)
}

impl View for XmlScan {
    type V = XmlScanView;

    open spec fn view(&self) -> XmlScanView {
        XmlScanView { tokens: token_views(self.tokens@), failed: self.failed }
    }
}

/// The events quick-xml's `Reader` (text trimmed) reads from `input`.
pub uninterp spec fn xml_scan(input: Seq<u8>) -> XmlScanView;

/// What `quick_xml::escape::unescape` makes of a text: the text with its
/// predefined entities and character references resolved, or none when a
/// reference is malformed or unknown.
pub uninterp spec fn unescape_refs(text: Seq<char>) -> Option<Seq<char>>;

/// What `BytesText::unescape().unwrap_or_default()` makes of escaped
/// character data: the bytes decoded as UTF-8 (quick-xml's decoder without
/// its `encoding` feature) with the references resolved; empty when the
/// bytes are not UTF-8 or a reference is bad.
pub open spec fn xml_unescape(raw: Seq<u8>) -> Seq<char> {
    if vstd::utf8::valid_utf8(raw) {
        match unescape_refs(vstd::utf8::decode_utf8(raw)) {
            Some(t) => t,
            None => seq![],
        }
    } else {
        seq![]
    }
}

/// Index of the first `:` in a name, or its length.
pub open spec fn first_colon(name: Seq<u8>) -> int
    decreases name.len(),
{
    if name.len() == 0 {
        0
    } else if name[0] == 58u8 {
        0
    } else {
        1 + first_colon(name.drop_first())
    }
}

/// `QName::local_name`: the part of a qualified name after its first `:`.
pub open spec fn spec_local_name(name: Seq<u8>) -> Seq<u8> {
    let i = first_colon(name);
    if 0 <= i < name.len() {
        name.skip(i + 1)
    } else {
        name
    }
}

proof fn lemma_first_colon(name: Seq<u8>, k: int)
    requires
        0 <= k <= name.len(),
        forall|j: int| 0 <= j < k ==> name[j] != 58u8,
        k < name.len() ==> name[k] == 58u8,
    ensures
        first_colon(name) == k,
    decreases name.len(),
{
    if name.len() > 0 && k > 0 {
        assert forall|j: int| 0 <= j < k - 1 implies name.drop_first()[j] != 58u8 by {
            assert(name.drop_first()[j] == name[j + 1]);
        }
        lemma_first_colon(name.drop_first(), k - 1);
    }
}

/// The local name of a tag.
pub fn local_name(name: &[u8]) -> (local: Vec<u8>)
    ensures
        local@ == spec_local_name(name@),
{
    let mut i: usize = 0;
    while i < name.len() && name[i] != 58u8
        invariant
            i <= name@.len(),
            forall|j: int| 0 <= j < i ==> name@[j] != 58u8,
        decreases name@.len() - i,
    {
        i = i + 1;
    }
    proof {
        lemma_first_colon(name@, i as int);
    }
    let mut local: Vec<u8> = Vec::new();
    let mut j: usize = if i < name.len() {
        i + 1
    } else {
        0
    };
    let ghost start = j;
    while j < name.len()
        invariant
            start <= j <= name@.len(),
            local@ == name@.subrange(start as int, j as int),
        decreases name@.len() - j,
    {
        local.push(name[j]);
        j = j + 1;
        assert(local@ =~= name@.subrange(start as int, j as int));
    }
    assert(name@.skip(start as int) =~= name@.subrange(start as int, name@.len() as int));
    local
}

/// `quick_xml::escape::unescape(text)`, owned, with the error dropped.
#[verifier::external_body]
fn unescape_str(text: &str) -> (r: Option<String>)
    ensures
        match r {
            Some(t) => unescape_refs(text@) == Some(t@),
            None => unescape_refs(text@) is None,
        },
{
    quick_xml::escape::unescape(text).map(|c| c.into_owned()).ok()
}

/// The text of escaped character data (see `xml_unescape`).
pub fn unescape_text(raw: &[u8]) -> (text: String)
    ensures
        text@ == xml_unescape(raw@),
{
    match string_from_utf8(vstd::slice::slice_to_vec(raw)) {
        Some(s) => match unescape_str(s.as_str()) {
            Some(t) => t,
            None => String::new(),
        },
        None => String::new(),
    }
}

impl XmlAttr {
    /// An attribute from its raw key and value.
    pub fn raw(key: &[u8], value: &[u8]) -> (a: XmlAttr)
        ensures
            a@ == (XmlAttrView { key: key@, value: value@ }),
    {
        XmlAttr {
            key: vstd::slice::slice_to_vec(key),
            value: vstd::slice::slice_to_vec(value),
        }
    }
}

impl XmlToken {
    /// A start tag (`empty` false) or an empty tag (`empty` true).
    pub fn tag(empty: bool, name: &[u8], attrs: Vec<XmlAttr>) -> (t: XmlToken)
        ensures
            t@ == (XmlTokenView {
                kind: if empty {
                    XmlKind::Empty
                } else {
                    XmlKind::Start
                },
                name: name@,
                attrs: attr_views(attrs@),
                raw_text: seq![],
            }),
    {
        let kind = if empty {
            XmlKind::Empty
        } else {
            XmlKind::Start
        };
        XmlToken { kind, name: vstd::slice::slice_to_vec(name), attrs, raw_text: Vec::new() }
    }

    /// An end tag.
    pub fn end(name: &[u8]) -> (t: XmlToken)
        ensures
            t@ == (XmlTokenView {
                kind: XmlKind::End,
                name: name@,
                attrs: seq![],
                raw_text: seq![],
            }),
    {
        let t = XmlToken {
            kind: XmlKind::End,
            name: vstd::slice::slice_to_vec(name),
            attrs: Vec::new(),
            raw_text: Vec::new(),
        };
        assert(attr_views(t.attrs@) =~= seq![]);
        t
    }

    /// Escaped character data.
    pub fn text(raw: &[u8]) -> (t: XmlToken)
        ensures
            t@ == (XmlTokenView {
                kind: XmlKind::Text,
                name: seq![],
                attrs: seq![],
                raw_text: raw@,
            }),
    {
        let t = XmlToken {
            kind: XmlKind::Text,
            name: Vec::new(),
            attrs: Vec::new(),
            raw_text: vstd::slice::slice_to_vec(raw),
        };
        assert(attr_views(t.attrs@) =~= seq![]);
        t
    }

    /// An event the parsers ignore.
    pub fn other() -> (t: XmlToken)
        ensures
            t@ == (XmlTokenView { kind: XmlKind::Other, name: seq![], attrs: seq![], raw_text: seq![] }),
    {
        let t = XmlToken { kind: XmlKind::Other, name: Vec::new(), attrs: Vec::new(), raw_text: Vec::new() };
        assert(attr_views(t.attrs@) =~= seq![]);
        t
    }
}

#[verifier::external_type_specification]
#[verifier::external_body]
#[verifier::reject_recursive_types(T)]
pub struct ExCursor<T>(Cursor<T>);

#[verifier::external_type_specification]
#[verifier::external_body]
#[verifier::reject_recursive_types(R)]
pub struct ExReader<R>(Reader<R>);

/// The events a reader has yet to yield, up to the end of its document or
/// up to its first error.
pub uninterp spec fn reader_pending(r: Reader<Cursor<Vec<u8>>>) -> Seq<XmlTokenView>;

/// Whether the reader meets an error after its pending events.
pub uninterp spec fn reader_fails(r: Reader<Cursor<Vec<u8>>>) -> bool;

/// `Reader::from_reader` over a copy of `input`, with `trim_text(true)`
/// and the other settings at their defaults. What it will yield is what
/// `xml_scan` names for that input.
#[verifier::external_body]
fn open_reader(input: &[u8]) -> (r: Reader<Cursor<Vec<u8>>>)
    ensures
        reader_pending(r) == xml_scan(input@).tokens,
        reader_fails(r) == xml_scan(input@).failed,
{
    let mut r = Reader::from_reader(Cursor::new(input.to_vec()));
    r.config_mut().trim_text(true);
    r
}

/// One step of reading.
pub enum ReadStep {
    Token(XmlToken),
    /// `Event::Eof`.
    End,
    /// A read error.
    Failed,
}

/// `Reader::read_event_into`, one event: start and empty tags keep their
/// qualified names and the attributes that parse (in order), end tags their
/// names, text its escaped bytes; other events keep nothing. The event is
/// the first pending one, which is then consumed; with none pending the
/// reader answers the end or its error.
#[verifier::external_body]
fn next_token(r: &mut Reader<Cursor<Vec<u8>>>) -> (s: ReadStep)
    ensures
        reader_pending(*old(r)).len() > 0 ==> (s matches ReadStep::Token(t) && t@ == reader_pending(
            *old(r),
        )[0]) && reader_pending(*final(r)) == reader_pending(*old(r)).drop_first() && reader_fails(
            *final(r),
        ) == reader_fails(*old(r)),
        reader_pending(*old(r)).len() == 0 ==> (s is Failed) == reader_fails(*old(r)) && (s is End)
            == !reader_fails(*old(r)),
{
    let mut buf = Vec::new();
    let (empty, e) = match r.read_event_into(&mut buf) {
        Ok(Start(e)) => (false, e),
        Ok(Empty(e)) => (true, e),
        Ok(Event::End(e)) => return Token(XmlToken::end(e.name().0)),
        Ok(Text(e)) => return Token(XmlToken::text(&e)),
        Ok(Eof) => return ReadStep::End,
        Err(_) => return Failed,
        Ok(_) => return Token(XmlToken::other()),
    };
    let attrs = e.attributes().flatten().map(|a| XmlAttr::raw(a.key.0, &a.value)).collect();
    Token(XmlToken::tag(empty, e.name().0, attrs))
}

/// Reads `input` with quick-xml's `Reader` (text trimmed) until the end of
/// the document or the first error.
pub fn scan_xml(input: &[u8]) -> (scan: XmlScan)
    ensures
        scan@ == xml_scan(input@),
{
    let mut r = open_reader(input);
    let mut tokens: Vec<XmlToken> = Vec::new();
    loop
        invariant
            token_views(tokens@) + reader_pending(r) == xml_scan(input@).tokens,
            reader_fails(r) == xml_scan(input@).failed,
        decreases reader_pending(r).len(),
    {
        let ghost before = tokens@;
        let ghost pending = reader_pending(r);
        match next_token(&mut r) {
            ReadStep::Token(t) => {
                tokens.push(t);
                assert(token_views(tokens@) =~= token_views(before).push(pending[0]));
                assert(token_views(tokens@) + reader_pending(r) =~= token_views(before) + pending);
            },
            ReadStep::End => {
                assert(token_views(tokens@) =~= xml_scan(input@).tokens);
                return XmlScan { tokens, failed: false };
            },
            ReadStep::Failed => {
                assert(token_views(tokens@) =~= xml_scan(input@).tokens);
                return XmlScan { tokens, failed: true };
            },
        }
    }
}

} // verus!
