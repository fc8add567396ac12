//! Parsing of PROPFIND and REPORT request bodies.
use vstd::prelude::*;

use super::scan::{
    attr_views, local_name, scan_xml, spec_local_name, token_views, unescape_text, xml_scan,
    xml_unescape, XmlAttr, XmlAttrView, XmlKind, XmlToken, XmlTokenView,
};
use super::{APPLE_NS, CALDAV_NS, CS_NS, DAV_NS};
use crate::text::{
    chars_of, copy_range, eq_lit, find_char, first_index_of, has_prefix, lossy_chars,
    spec_utf8_lossy, starts_with, string_from_chars, string_views, utf8_lossy,
};

verus! {

/// A single requested property with namespace and local name.
#[derive(Debug, Clone)]
pub struct PropRequest {
    pub namespace: String,
    pub local_name: String,
}

/// Parsed PROPFIND request body.
#[derive(Debug, Clone)]
pub enum PropfindRequest {
    /// Client wants all properties
    AllProp,
    /// Client wants just property names
    PropName,
    /// Client wants specific properties
    Props(Vec<PropRequest>),
}

/// Parsed REPORT request body.
#[derive(Debug, Clone)]
pub enum ReportRequest {
    CalendarMultiget { props: Vec<PropRequest>, hrefs: Vec<String> },
    CalendarQuery { props: Vec<PropRequest>, time_range: Option<(String, String)> },
    SyncCollection { props: Vec<PropRequest>, sync_token: String },
}

pub struct PropRequestView {
    pub namespace: Seq<char>,
    pub local_name: Seq<char>,
}

pub enum PropfindRequestView {
    AllProp,
    PropName,
    Props(Seq<PropRequestView>),
}

pub enum ReportRequestView {
    CalendarMultiget { props: Seq<PropRequestView>, hrefs: Seq<Seq<char>> },
    CalendarQuery { props: Seq<PropRequestView>, time_range: Option<(Seq<char>, Seq<char>)> },
    SyncCollection { props: Seq<PropRequestView>, sync_token: Seq<char> },
}

impl View for PropRequest {
    type V = PropRequestView;

    open spec fn view(&self) -> PropRequestView {
        PropRequestView { namespace: self.namespace@, local_name: self.local_name@ }
    }
}

/// The views of property requests.
pub open spec fn prop_request_views(p: Seq<PropRequest>) -> Seq<PropRequestView> {
    p.map_values(|r: PropRequest| r@)
}

impl View for PropfindRequest {
    type V = PropfindRequestView;

    open spec fn view(&self) -> PropfindRequestView {
        match self {
            PropfindRequest::AllProp => PropfindRequestView::AllProp,
            PropfindRequest::PropName => PropfindRequestView::PropName,
            PropfindRequest::Props(p) => PropfindRequestView::Props(prop_request_views(p@)),
        }
    }
}

impl View for ReportRequest {
    type V = ReportRequestView;

    open spec fn view(&self) -> ReportRequestView {
        match self {
            ReportRequest::CalendarMultiget { props, hrefs } => ReportRequestView::CalendarMultiget {
                props: prop_request_views(props@),
                hrefs: string_views(hrefs@),
            },
            ReportRequest::CalendarQuery { props, time_range } => ReportRequestView::CalendarQuery {
                props: prop_request_views(props@),
                time_range: match time_range {
                    Some(r) => Some((r.0@, r.1@)),
                    None => None,
                },
            },
            ReportRequest::SyncCollection { props, sync_token } => ReportRequestView::SyncCollection {
                props: prop_request_views(props@),
                sync_token: sync_token@,
            },
        }
    }
}

// ---------------------------------------------------------------------------
// Namespace resolution
// ---------------------------------------------------------------------------

/// The local name of a tag, as text.
pub open spec fn tag_local(t: XmlTokenView) -> Seq<char> {
    spec_utf8_lossy(spec_local_name(t.name))
}

/// The bindings after registering the `xmlns` / `xmlns:p` attributes of a tag,
/// in order (`""` is the default namespace).
pub open spec fn register_attrs(ns: Seq<(Seq<char>, Seq<char>)>, attrs: Seq<XmlAttrView>) -> Seq<
    (Seq<char>, Seq<char>),
>
    decreases attrs.len(),
{
    if attrs.len() == 0 {
        ns
    } else {
        let before = register_attrs(ns, attrs.drop_last());
        let key = spec_utf8_lossy(attrs.last().key);
        let value = spec_utf8_lossy(attrs.last().value);
        if key == "xmlns"@ {
            before.push((seq![], value))
        } else if has_prefix(key, "xmlns:"@) {
            before.push((key.skip("xmlns:"@.len() as int), value))
        } else {
            before
        }
    }
}

/// The namespace most recently bound to `prefix`.
pub open spec fn ns_get(ns: Seq<(Seq<char>, Seq<char>)>, prefix: Seq<char>) -> Option<Seq<char>>
    decreases ns.len(),
{
    if ns.len() == 0 {
        None
    } else if ns.last().0 == prefix {
        Some(ns.last().1)
    } else {
        ns_get(ns.drop_last(), prefix)
    }
}

/// The value of the first `xmlns` attribute of a tag.
pub open spec fn own_xmlns(attrs: Seq<XmlAttrView>) -> Option<Seq<char>>
    decreases attrs.len(),
{
    if attrs.len() == 0 {
        None
    } else if spec_utf8_lossy(attrs[0].key) == "xmlns"@ {
        Some(spec_utf8_lossy(attrs[0].value))
    } else {
        own_xmlns(attrs.drop_first())
    }
}

/// Well-known prefix conventions for prefixes that were never declared.
pub open spec fn fallback_ns(prefix: Seq<char>) -> Seq<char> {
    if prefix == "D"@ || prefix == "d"@ {
        DAV_NS@
    } else if prefix == "C"@ || prefix == "c"@ || prefix == "cal"@ {
        CALDAV_NS@
    } else if prefix == "A"@ || prefix == "IC"@ {
        APPLE_NS@
    } else if prefix == "CS"@ || prefix == "cs"@ {
        CS_NS@
    } else {
        DAV_NS@
    }
}

/// The namespace of a tag: its own `xmlns`, else the binding of its prefix
/// (or the fallback for that prefix), else the default namespace, else DAV:.
pub open spec fn spec_resolve(ns: Seq<(Seq<char>, Seq<char>)>, t: XmlTokenView) -> Seq<char> {
    match own_xmlns(t.attrs) {
        Some(v) => v,
        None => {
            let name = spec_utf8_lossy(t.name);
            let k = first_index_of(name, ':');
            if 0 <= k < name.len() {
                match ns_get(ns, name.take(k)) {
                    Some(u) => u,
                    None => fallback_ns(name.take(k)),
                }
            } else {
                match ns_get(ns, seq![]) {
                    Some(u) => u,
                    None => DAV_NS@,
                }
            }
        },
    }
}

/// Tracks namespace prefix → URI mappings from xmlns declarations.
/// For request bodies all declarations are accumulated; a later declaration
/// of a prefix wins.
pub struct NsContext {
    map: Vec<(String, String)>,
}

impl View for NsContext {
    type V = Seq<(Seq<char>, Seq<char>)>;

    closed spec fn view(&self) -> Seq<(Seq<char>, Seq<char>)> {
        self.map@.map_values(|p: (String, String)| (p.0@, p.1@))
    }
}

impl NsContext {
    /// No bindings.
    pub fn new() -> (c: Self)
        ensures
            c@ == Seq::<(Seq<char>, Seq<char>)>::empty(),
    {
        let c = NsContext { map: Vec::new() };
        assert(c@ =~= Seq::<(Seq<char>, Seq<char>)>::empty());
        c
    }

    fn insert(&mut self, prefix: String, uri: String)
        ensures
            final(self)@ == old(self)@.push((prefix@, uri@)),
    {
        let ghost before = self@;
        self.map.push((prefix, uri));
        assert(self@ =~= before.push((prefix@, uri@)));
    }

    /// Registers the namespace declarations among a tag's attributes.
    pub fn register_from_event(&mut self, attrs: &Vec<XmlAttr>)
        ensures
            final(self)@ == register_attrs(old(self)@, attr_views(attrs@)),
    {
        let ghost start = self@;
        let xmlns = chars_of("xmlns");
        let xmlns_colon = chars_of("xmlns:");
        let mut i: usize = 0;
        while i < attrs.len()
            invariant
                i <= attrs@.len(),
                xmlns@ == "xmlns"@,
                xmlns_colon@ == "xmlns:"@,
                self@ == register_attrs(start, attr_views(attrs@).take(i as int)),
            decreases attrs@.len() - i,
        {
            assert(attr_views(attrs@).take(i + 1).drop_last() =~= attr_views(attrs@).take(i as int));
            let key = lossy_chars(attrs[i].key.as_slice());
            let value = utf8_lossy(attrs[i].value.as_slice());
            if crate::text::chars_eq(key.as_slice(), xmlns.as_slice()) {
                self.insert(String::new(), value);
            } else if starts_with(key.as_slice(), xmlns_colon.as_slice()) {
                let p = copy_range(key.as_slice(), xmlns_colon.len(), key.len());
                assert(p@ =~= key@.skip("xmlns:"@.len() as int));
                self.insert(string_from_chars(p.as_slice()), value);
            }
            i = i + 1;
        }
        assert(attr_views(attrs@).take(attrs@.len() as int) =~= attr_views(attrs@));
    }

    fn get(&self, prefix: &[char]) -> (r: Option<String>)
        ensures
            match r {
                Some(u) => ns_get(self@, prefix@) == Some(u@),
                None => ns_get(self@, prefix@) is None,
            },
    {
        let mut i = self.map.len();
        assert(self@.take(i as int) =~= self@);
        while i > 0
            invariant
                i <= self.map@.len(),
                ns_get(self@, prefix@) == ns_get(self@.take(i as int), prefix@),
            decreases i,
        {
            let ghost t = self@.take(i as int);
            assert(t.drop_last() =~= self@.take(i - 1));
            assert(t.last() == self@[i - 1]);
            let k = chars_of(self.map[i - 1].0.as_str());
            if crate::text::chars_eq(k.as_slice(), prefix) {
                return Some(self.map[i - 1].1.clone());
            }
            i = i - 1;
        }
        None
    }

    /// Resolve the namespace of an element based on its prefix and the
    /// bindings registered so far.
    pub fn resolve(&self, token: &XmlToken) -> (ns: String)
        ensures
            ns@ == spec_resolve(self@, token@),
    {
        let xmlns = chars_of("xmlns");
        let mut i: usize = 0;
        assert(attr_views(token.attrs@).skip(0) =~= attr_views(token.attrs@));
        while i < token.attrs.len()
            invariant
                i <= token.attrs@.len(),
                xmlns@ == "xmlns"@,
                own_xmlns(attr_views(token.attrs@)) == own_xmlns(
                    attr_views(token.attrs@).skip(i as int),
                ),
            decreases token.attrs@.len() - i,
        {
            let ghost rest = attr_views(token.attrs@).skip(i as int);
            assert(rest.drop_first() =~= attr_views(token.attrs@).skip(i + 1));
            let key = lossy_chars(token.attrs[i].key.as_slice());
            if crate::text::chars_eq(key.as_slice(), xmlns.as_slice()) {
                return utf8_lossy(token.attrs[i].value.as_slice());
            }
            i = i + 1;
        }
        let name = lossy_chars(token.name.as_slice());
        let k = find_char(name.as_slice(), 0, ':');
        assert(name@.skip(0) =~= name@);
        if k < name.len() {
            let prefix = copy_range(name.as_slice(), 0, k);
            assert(prefix@ =~= name@.take(k as int));
            match self.get(prefix.as_slice()) {
                Some(u) => u,
                None => fallback_namespace(prefix.as_slice()),
            }
        } else {
            let empty: Vec<char> = Vec::new();
            assert(empty@ =~= seq![]);
            match self.get(empty.as_slice()) {
                Some(u) => u,
                None => String::from_str(DAV_NS),
            }
        }
    }
}

fn fallback_namespace(prefix: &[char]) -> (ns: String)
    ensures
        ns@ == fallback_ns(prefix@),
{
    if eq_lit(prefix, "D") || eq_lit(prefix, "d") {
        String::from_str(DAV_NS)
    } else if eq_lit(prefix, "C") || eq_lit(prefix, "c") || eq_lit(prefix, "cal") {
        String::from_str(CALDAV_NS)
    } else if eq_lit(prefix, "A") || eq_lit(prefix, "IC") {
        String::from_str(APPLE_NS)
    } else if eq_lit(prefix, "CS") || eq_lit(prefix, "cs") {
        String::from_str(CS_NS)
    } else {
        String::from_str(DAV_NS)
    }
}

/// The local name of a tag token, as characters.
fn token_local(t: &XmlToken) -> (v: Vec<char>)
    ensures
        v@ == tag_local(t@),
{
    let l = local_name(t.name.as_slice());
    lossy_chars(l.as_slice())
}


// ---------------------------------------------------------------------------
// PROPFIND
// ---------------------------------------------------------------------------

/// What has been read of a PROPFIND body so far.
#[verifier::ext_equal]
pub struct PropfindState {
    pub ns: Seq<(Seq<char>, Seq<char>)>,
    pub in_prop: bool,
    pub props: Seq<PropRequestView>,
}

/// Reading an event either decides the request or continues.
pub enum PropfindStep {
    Done(PropfindRequestView),
    Go(PropfindState),
}

/// One event of a PROPFIND body: every tag registers its namespace
/// declarations; `allprop` and `propname` decide; `prop` opens the list of
/// requested properties, whose child tags are collected with their resolved
/// namespaces; `</prop>` closes it.
pub open spec fn propfind_step(st: PropfindState, t: XmlTokenView) -> PropfindStep {
    if t.kind == XmlKind::Start || t.kind == XmlKind::Empty {
        let ns = register_attrs(st.ns, t.attrs);
        let local = tag_local(t);
        if local == "allprop"@ {
            PropfindStep::Done(PropfindRequestView::AllProp)
        } else if local == "propname"@ {
            PropfindStep::Done(PropfindRequestView::PropName)
        } else if local == "prop"@ {
            PropfindStep::Go(PropfindState { ns, in_prop: true, props: st.props })
        } else if st.in_prop {
            PropfindStep::Go(
                PropfindState {
                    ns,
                    in_prop: true,
                    props: st.props.push(
                        PropRequestView { namespace: spec_resolve(ns, t), local_name: local },
                    ),
                },
            )
        } else {
            PropfindStep::Go(PropfindState { ns, in_prop: st.in_prop, props: st.props })
        }
    } else if t.kind == XmlKind::End && tag_local(t) == "prop"@ {
        PropfindStep::Go(PropfindState { ns: st.ns, in_prop: false, props: st.props })
    } else {
        PropfindStep::Go(st)
    }
}

/// The request decided by the remaining events: a read error or an empty
/// list of requested properties means all properties.
pub open spec fn propfind_run(tokens: Seq<XmlTokenView>, st: PropfindState, failed: bool) -> PropfindRequestView
    decreases tokens.len(),
{
    if tokens.len() == 0 {
        if failed || st.props.len() == 0 {
            PropfindRequestView::AllProp
        } else {
            PropfindRequestView::Props(st.props)
        }
    } else {
        match propfind_step(st, tokens[0]) {
            PropfindStep::Done(r) => r,
            PropfindStep::Go(next) => propfind_run(tokens.drop_first(), next, failed),
        }
    }
}

/// The PROPFIND request a body asks for; an empty body asks for all properties.
pub open spec fn spec_parse_propfind(body: Seq<u8>) -> PropfindRequestView {
    if body.len() == 0 {
        PropfindRequestView::AllProp
    } else {
        propfind_run(
            xml_scan(body).tokens,
            PropfindState { ns: seq![], in_prop: false, props: seq![] },
            xml_scan(body).failed,
        )
    }
}

/// The PROPFIND request the scanned events of a body ask for.
pub fn propfind_from_scan(scan: &super::scan::XmlScan) -> (r: PropfindRequest)
    ensures
        r@ == propfind_run(
            scan@.tokens,
            PropfindState { ns: seq![], in_prop: false, props: seq![] },
            scan@.failed,
        ),
{
    let ghost tokens = scan@.tokens;
    let ghost init = PropfindState { ns: seq![], in_prop: false, props: seq![] };
    let mut ctx = NsContext::new();
    let mut in_prop = false;
    let mut props: Vec<PropRequest> = Vec::new();
    let mut i: usize = 0;
    assert(tokens.skip(0) =~= tokens);
    assert(prop_request_views(props@) =~= seq![]);
    while i < scan.tokens.len()
        invariant
            tokens == scan@.tokens,
            init == (PropfindState { ns: seq![], in_prop: false, props: seq![] }),
            i <= tokens.len(),
            propfind_run(tokens, init, scan@.failed) == propfind_run(
                tokens.skip(i as int),
                PropfindState { ns: ctx@, in_prop, props: prop_request_views(props@) },
                scan@.failed,
            ),
        decreases tokens.len() - i,
    {
        let t = &scan.tokens[i];
        let ghost st = PropfindState { ns: ctx@, in_prop, props: prop_request_views(props@) };
        assert(tokens[i as int] == t@);
        assert(tokens.skip(i as int).drop_first() =~= tokens.skip(i + 1));
        assert(tokens.skip(i as int)[0] == t@);
        match t.kind {
            XmlKind::Start | XmlKind::Empty => {
                ctx.register_from_event(&t.attrs);
                let local = token_local(t);
                if eq_lit(local.as_slice(), "allprop") {
                    assert(propfind_step(st, t@) == PropfindStep::Done(PropfindRequestView::AllProp));
                    assert(propfind_run(tokens.skip(i as int), st, scan@.failed)
                        == PropfindRequestView::AllProp);
                    return PropfindRequest::AllProp;
                } else if eq_lit(local.as_slice(), "propname") {
                    assert(propfind_step(st, t@) == PropfindStep::Done(PropfindRequestView::PropName));
                    assert(propfind_run(tokens.skip(i as int), st, scan@.failed)
                        == PropfindRequestView::PropName);
                    return PropfindRequest::PropName;
                } else if eq_lit(local.as_slice(), "prop") {
                    in_prop = true;
                } else if in_prop {
                    let ns = ctx.resolve(t);
                    let ghost before = props@;
                    props.push(
                        PropRequest { namespace: ns, local_name: string_from_chars(local.as_slice()) },
                    );
                    assert(prop_request_views(props@) =~= prop_request_views(before).push(
                        props@.last()@,
                    ));
                }
            },
            XmlKind::End => {
                let local = token_local(t);
                if eq_lit(local.as_slice(), "prop") {
                    in_prop = false;
                }
            },
            _ => {},
        }
        i = i + 1;
    }
    if scan.failed || props.len() == 0 {
        PropfindRequest::AllProp
    } else {
        PropfindRequest::Props(props)
    }
}

/// Parse a PROPFIND request body. Returns AllProp if body is empty.
pub fn parse_propfind(body: &[u8]) -> (r: PropfindRequest)
    ensures
        r@ == spec_parse_propfind(body@),
{
    if body.len() == 0 {
        return PropfindRequest::AllProp;
    }
    let scan = scan_xml(body);
    propfind_from_scan(&scan)
}

// ---------------------------------------------------------------------------
// REPORT
// ---------------------------------------------------------------------------

/// Which report the body names.
#[derive(Clone, Copy, Debug)]
pub enum ReportKind {
    Multiget,
    Query,
    Sync,
}

/// What has been read of a REPORT body so far.
#[verifier::ext_equal]
pub struct ReportState {
    pub ns: Seq<(Seq<char>, Seq<char>)>,
    pub kind: Option<ReportKind>,
    pub in_prop: bool,
    pub props: Seq<PropRequestView>,
    pub hrefs: Seq<Seq<char>>,
    pub time_start: Seq<char>,
    pub time_end: Seq<char>,
    pub sync_token: Seq<char>,
    pub in_sync_token: bool,
    pub in_href: bool,
}

/// The `start` and `end` attributes of a `time-range` tag, the later of
/// repeated ones winning.
pub open spec fn time_attrs(start: Seq<char>, end: Seq<char>, attrs: Seq<XmlAttrView>) -> (
    Seq<char>,
    Seq<char>,
)
    decreases attrs.len(),
{
    if attrs.len() == 0 {
        (start, end)
    } else {
        let before = time_attrs(start, end, attrs.drop_last());
        let key = spec_utf8_lossy(attrs.last().key);
        let value = spec_utf8_lossy(attrs.last().value);
        if key == "start"@ {
            (value, before.1)
        } else if key == "end"@ {
            (before.0, value)
        } else {
            before
        }
    }
}

/// One tag opening in a REPORT body (after its namespaces are registered).
pub open spec fn report_open(st: ReportState, t: XmlTokenView) -> ReportState {
    let local = tag_local(t);
    if local == "calendar-multiget"@ {
        ReportState { kind: Some(ReportKind::Multiget), ..st }
    } else if local == "calendar-query"@ {
        ReportState { kind: Some(ReportKind::Query), ..st }
    } else if local == "sync-collection"@ {
        ReportState { kind: Some(ReportKind::Sync), ..st }
    } else if local == "prop"@ {
        ReportState { in_prop: true, ..st }
    } else if local == "filter"@ || local == "comp-filter"@ {
        st
    } else if local == "href"@ {
        ReportState { in_href: true, ..st }
    } else if local == "sync-token"@ {
        ReportState { in_sync_token: true, ..st }
    } else if local == "time-range"@ {
        let r = time_attrs(st.time_start, st.time_end, t.attrs);
        ReportState { time_start: r.0, time_end: r.1, ..st }
    } else if st.in_prop {
        ReportState {
            props: st.props.push(
                PropRequestView { namespace: spec_resolve(st.ns, t), local_name: local },
            ),
            ..st
        }
    } else {
        st
    }
}

/// One event of a REPORT body.
pub open spec fn report_step(st: ReportState, t: XmlTokenView) -> ReportState {
    if t.kind == XmlKind::Start || t.kind == XmlKind::Empty {
        report_open(ReportState { ns: register_attrs(st.ns, t.attrs), ..st }, t)
    } else if t.kind == XmlKind::End {
        let local = tag_local(t);
        if local == "prop"@ {
            ReportState { in_prop: false, ..st }
        } else if local == "href"@ {
            ReportState { in_href: false, ..st }
        } else if local == "sync-token"@ {
            ReportState { in_sync_token: false, ..st }
        } else {
            st
        }
    } else if t.kind == XmlKind::Text {
        if st.in_href {
            ReportState { hrefs: st.hrefs.push(xml_unescape(t.raw_text)), ..st }
        } else if st.in_sync_token {
            ReportState { sync_token: xml_unescape(t.raw_text), ..st }
        } else {
            st
        }
    } else {
        st
    }
}

/// The state after reading the remaining events.
pub open spec fn report_run(tokens: Seq<XmlTokenView>, st: ReportState) -> ReportState
    decreases tokens.len(),
{
    if tokens.len() == 0 {
        st
    } else {
        report_run(tokens.drop_first(), report_step(st, tokens[0]))
    }
}

/// The state before any event.
pub open spec fn report_init() -> ReportState {
    ReportState {
        ns: seq![],
        kind: None,
        in_prop: false,
        props: seq![],
        hrefs: seq![],
        time_start: seq![],
        time_end: seq![],
        sync_token: seq![],
        in_sync_token: false,
        in_href: false,
    }
}

/// The request a fully read REPORT body makes; a query has a time range only
/// when both of its ends are non-empty.
pub open spec fn report_result(st: ReportState) -> Option<ReportRequestView> {
    match st.kind {
        None => None,
        Some(ReportKind::Multiget) => Some(
            ReportRequestView::CalendarMultiget { props: st.props, hrefs: st.hrefs },
        ),
        Some(ReportKind::Query) => Some(
            ReportRequestView::CalendarQuery {
                props: st.props,
                time_range: if st.time_start.len() > 0 && st.time_end.len() > 0 {
                    Some((st.time_start, st.time_end))
                } else {
                    None
                },
            },
        ),
        Some(ReportKind::Sync) => Some(
            ReportRequestView::SyncCollection { props: st.props, sync_token: st.sync_token },
        ),
    }
}

/// The REPORT request a body makes: none for an empty body, a body that
/// does not read to its end, or one that names no known report.
pub open spec fn spec_parse_report(body: Seq<u8>) -> Option<ReportRequestView> {
    if body.len() == 0 || xml_scan(body).failed {
        None
    } else {
        report_result(report_run(xml_scan(body).tokens, report_init()))
    }
}

/// An event that opens one of the three report elements.
pub open spec fn opens_report(t: XmlTokenView) -> bool {
    &&& (t.kind == XmlKind::Start || t.kind == XmlKind::Empty)
    &&& (tag_local(t) == "calendar-multiget"@ || tag_local(t) == "calendar-query"@ || tag_local(t)
        == "sync-collection"@)
}

proof fn lemma_report_run_keeps_kind(tokens: Seq<XmlTokenView>, st: ReportState)
    requires
        forall|i: int| 0 <= i < tokens.len() ==> !opens_report(#[trigger] tokens[i]),
    ensures
        report_run(tokens, st).kind == st.kind,
    decreases tokens.len(),
{
    if tokens.len() > 0 {
        assert(!opens_report(tokens[0]));
        assert forall|i: int| 0 <= i < tokens.drop_first().len() implies !opens_report(
            #[trigger] tokens.drop_first()[i],
        ) by {
            assert(tokens.drop_first()[i] == tokens[i + 1]);
        }
        lemma_report_run_keeps_kind(tokens.drop_first(), report_step(st, tokens[0]));
    }
}

/// A REPORT body that opens none of `calendar-multiget`, `calendar-query`
/// and `sync-collection` makes no request.
pub proof fn lemma_report_needs_report_element(body: Seq<u8>)
    requires
        forall|i: int|
            0 <= i < xml_scan(body).tokens.len() ==> !opens_report(#[trigger] xml_scan(body).tokens[i]),
    ensures
        spec_parse_report(body) is None,
{
    lemma_report_run_keeps_kind(xml_scan(body).tokens, report_init());
}

/// The view of an optional report request.
pub open spec fn opt_report_view(r: Option<ReportRequest>) -> Option<ReportRequestView> {
    match r {
        Some(x) => Some(x@),
        None => None,
    }
}

/// Exec form of the REPORT reading state.
struct ReportReader {
    ctx: NsContext,
    kind: Option<ReportKind>,
    in_prop: bool,
    props: Vec<PropRequest>,
    hrefs: Vec<String>,
    time_start: String,
    time_end: String,
    sync_token: String,
    in_sync_token: bool,
    in_href: bool,
}

impl View for ReportReader {
    type V = ReportState;

    closed spec fn view(&self) -> ReportState {
        ReportState {
            ns: self.ctx@,
            kind: self.kind,
            in_prop: self.in_prop,
            props: prop_request_views(self.props@),
            hrefs: string_views(self.hrefs@),
            time_start: self.time_start@,
            time_end: self.time_end@,
            sync_token: self.sync_token@,
            in_sync_token: self.in_sync_token,
            in_href: self.in_href,
        }
    }
}

impl ReportReader {
    fn new() -> (r: Self)
        ensures
            r@ == report_init(),
    {
        let r = ReportReader {
            ctx: NsContext::new(),
            kind: None,
            in_prop: false,
            props: Vec::new(),
            hrefs: Vec::new(),
            time_start: String::new(),
            time_end: String::new(),
            sync_token: String::new(),
            in_sync_token: false,
            in_href: false,
        };
        assert(r@ =~= report_init());
        r
    }

    fn time_range_attrs(&mut self, attrs: &Vec<XmlAttr>)
        ensures
            final(self)@ == (ReportState {
                time_start: time_attrs(old(self)@.time_start, old(self)@.time_end, attr_views(attrs@)).0,
                time_end: time_attrs(old(self)@.time_start, old(self)@.time_end, attr_views(attrs@)).1,
                ..old(self)@
            }),
    {
        let ghost s0 = self.time_start@;
        let ghost e0 = self.time_end@;
        let mut i: usize = 0;
        while i < attrs.len()
            invariant
                i <= attrs@.len(),
                (self.time_start@, self.time_end@) == time_attrs(s0, e0, attr_views(attrs@).take(i as int)),
                self@ == (ReportState { time_start: self.time_start@, time_end: self.time_end@, ..old(self)@ }),
            decreases attrs@.len() - i,
        {
            assert(attr_views(attrs@).take(i + 1).drop_last() =~= attr_views(attrs@).take(i as int));
            let key = lossy_chars(attrs[i].key.as_slice());
            if eq_lit(key.as_slice(), "start") {
                self.time_start = utf8_lossy(attrs[i].value.as_slice());
            } else if eq_lit(key.as_slice(), "end") {
                self.time_end = utf8_lossy(attrs[i].value.as_slice());
            }
            i = i + 1;
        }
        assert(attr_views(attrs@).take(attrs@.len() as int) =~= attr_views(attrs@));
    }

    fn open(&mut self, t: &XmlToken)
        ensures
            final(self)@ == report_open(old(self)@, t@),
    {
        let local = token_local(t);
        let l = local.as_slice();
        if eq_lit(l, "calendar-multiget") {
            self.kind = Some(ReportKind::Multiget);
        } else if eq_lit(l, "calendar-query") {
            self.kind = Some(ReportKind::Query);
        } else if eq_lit(l, "sync-collection") {
            self.kind = Some(ReportKind::Sync);
        } else if eq_lit(l, "prop") {
            self.in_prop = true;
        } else if eq_lit(l, "filter") || eq_lit(l, "comp-filter") {
        } else if eq_lit(l, "href") {
            self.in_href = true;
        } else if eq_lit(l, "sync-token") {
            self.in_sync_token = true;
        } else if eq_lit(l, "time-range") {
            self.time_range_attrs(&t.attrs);
        } else if self.in_prop {
            let ns = self.ctx.resolve(t);
            let ghost before = self.props@;
            self.props.push(PropRequest { namespace: ns, local_name: string_from_chars(l) });
            assert(prop_request_views(self.props@) =~= prop_request_views(before).push(
                self.props@.last()@,
            ));
        }
    }

    fn step(&mut self, t: &XmlToken)
        ensures
            final(self)@ == report_step(old(self)@, t@),
    {
        match t.kind {
            XmlKind::Start | XmlKind::Empty => {
                self.ctx.register_from_event(&t.attrs);
                self.open(t);
            },
            XmlKind::End => {
                let local = token_local(t);
                let l = local.as_slice();
                if eq_lit(l, "prop") {
                    self.in_prop = false;
                } else if eq_lit(l, "href") {
                    self.in_href = false;
                } else if eq_lit(l, "sync-token") {
                    self.in_sync_token = false;
                }
            },
            XmlKind::Text => {
                if self.in_href {
                    let text = unescape_text(t.raw_text.as_slice());
                    let ghost before = self.hrefs@;
                    self.hrefs.push(text);
                    assert(string_views(self.hrefs@) =~= string_views(before).push(text@));
                } else if self.in_sync_token {
                    self.sync_token = unescape_text(t.raw_text.as_slice());
                }
            },
            XmlKind::Other => {},
        }
    }

    fn finish(self) -> (r: Option<ReportRequest>)
        ensures
            opt_report_view(r) == report_result(self@),
    {
        match self.kind {
            None => None,
            Some(ReportKind::Multiget) => Some(
                ReportRequest::CalendarMultiget { props: self.props, hrefs: self.hrefs },
            ),
            Some(ReportKind::Query) => {
                let time_range = if !self.time_start.as_str().is_empty()
                    && !self.time_end.as_str().is_empty() {
                    Some((self.time_start, self.time_end))
                } else {
                    None
                };
                Some(ReportRequest::CalendarQuery { props: self.props, time_range })
            },
            Some(ReportKind::Sync) => Some(
                ReportRequest::SyncCollection { props: self.props, sync_token: self.sync_token },
            ),
        }
    }
}

/// The REPORT request the scanned events of a fully read body make.
pub fn report_from_scan(scan: &super::scan::XmlScan) -> (r: Option<ReportRequest>)
    ensures
        opt_report_view(r) == report_result(report_run(scan@.tokens, report_init())),
{
    let ghost tokens = scan@.tokens;
    let mut rd = ReportReader::new();
    let mut i: usize = 0;
    assert(tokens.skip(0) =~= tokens);
    while i < scan.tokens.len()
        invariant
            tokens == scan@.tokens,
            i <= tokens.len(),
            report_run(tokens, report_init()) == report_run(tokens.skip(i as int), rd@),
        decreases tokens.len() - i,
    {
        assert(tokens[i as int] == scan.tokens[i as int]@);
        assert(tokens.skip(i as int).drop_first() =~= tokens.skip(i + 1));
        assert(tokens.skip(i as int)[0] == tokens[i as int]);
        rd.step(&scan.tokens[i]);
        i = i + 1;
    }
    assert(tokens.skip(tokens.len() as int).len() == 0);
    rd.finish()
}

/// Parse a REPORT request body.
pub fn parse_report(body: &[u8]) -> (r: Option<ReportRequest>)
    ensures
        opt_report_view(r) == spec_parse_report(body@),
{
    if body.len() == 0 {
        return None;
    }
    let scan = scan_xml(body);
    if scan.failed {
        return None;
    }
    report_from_scan(&scan)
}

} // verus!
