//! The computations of the REPORT handler: href decoding and the
//! multistatus bodies of the three reports.
use vstd::prelude::*;

use super::xml::multistatus::{
    end_tag, header_text, prop_views, response_text, PropContentView, status_response_text, sync_token_text,
    MultistatusBuilder, PropValue,
};
use super::xml::parse::{prop_request_views, PropRequest, PropRequestView};
use super::xml::properties::{
    calendar_object_href_for_context, calendar_object_props, ctx_email, ensure_sync_token_uri,
    names_value, spec_calendar_object_href_for_context, spec_calendar_object_props,
    spec_sync_token_uri,
};
use super::HrefContext;
use crate::db::models::{CalendarObject, SyncChange};
use crate::text::{chars_of, copy_range, eq_lit, push_char, string_from_chars, string_views};

verus! {

/// The value of a hexadecimal digit (either case).
pub open spec fn hex_value(c: char) -> Option<u8> {
    if '0' <= c && c <= '9' {
        Some((c as u32 - '0' as u32) as u8)
    } else if 'a' <= c && c <= 'f' {
        Some((c as u32 - 'a' as u32 + 10) as u8)
    } else if 'A' <= c && c <= 'F' {
        Some((c as u32 - 'A' as u32 + 10) as u8)
    } else {
        None
    }
}

/// `u8::from_str_radix` of the two characters in base 16: two hexadecimal
/// digits, or a `+` sign followed by one.
pub open spec fn hex_byte(h1: char, h2: char) -> Option<u8> {
    if h1 == '+' {
        hex_value(h2)
    } else {
        match (hex_value(h1), hex_value(h2)) {
            (Some(a), Some(b)) => Some((16 * a + b) as u8),
            _ => None,
        }
    }
}

/// Percent-decoding: `%` and the two characters after it become the byte
/// they spell (as the character of that code point); when they spell none,
/// the three become a lone `%`; a `%` with fewer than two characters after
/// it ends the text with a `%`.
pub open spec fn spec_percent_decode(s: Seq<char>) -> Seq<char>
    decreases s.len(),
{
    if s.len() == 0 {
        seq![]
    } else if s[0] != '%' {
        seq![s[0]] + spec_percent_decode(s.skip(1))
    } else if s.len() < 3 {
        seq!['%']
    } else {
        match hex_byte(s[1], s[2]) {
            Some(b) => seq![b as char] + spec_percent_decode(s.skip(3)),
            None => seq!['%'] + spec_percent_decode(s.skip(3)),
        }
    }
}

fn hex_digit(c: char) -> (r: Option<u8>)
    ensures
        r == hex_value(c),
{
    if '0' <= c && c <= '9' {
        Some((c as u32 - '0' as u32) as u8)
    } else if 'a' <= c && c <= 'f' {
        Some((c as u32 - 'a' as u32 + 10) as u8)
    } else if 'A' <= c && c <= 'F' {
        Some((c as u32 - 'A' as u32 + 10) as u8)
    } else {
        None
    }
}

fn parse_hex_byte(h1: char, h2: char) -> (r: Option<u8>)
    ensures
        r == hex_byte(h1, h2),
{
    if h1 == '+' {
        hex_digit(h2)
    } else {
        match (hex_digit(h1), hex_digit(h2)) {
            (Some(a), Some(b)) => Some(16 * a + b),
            _ => None,
        }
    }
}

/// Percent-decode a URL path segment (e.g. `%40` → `@`).
pub fn percent_decode(s: &str) -> (out: String)
    ensures
        out@ == spec_percent_decode(s@),
{
    let c = chars_of(s);
    let mut out = String::new();
    let mut i: usize = 0;
    assert(c@.skip(0) =~= c@);
    while i < c.len()
        invariant
            c@ == s@,
            i <= c@.len(),
            spec_percent_decode(s@) == out@ + spec_percent_decode(c@.skip(i as int)),
        decreases c@.len() - i,
    {
        let ghost rest = c@.skip(i as int);
        assert(rest[0] == c@[i as int]);
        if c[i] == '%' {
            if c.len() - i > 2 {
                assert(rest[1] == c@[i + 1] && rest[2] == c@[i + 2]);
                assert(rest.skip(3) =~= c@.skip(i + 3));
                match parse_hex_byte(c[i + 1], c[i + 2]) {
                    Some(b) => {
                        push_char(&mut out, b as char);
                    },
                    None => {
                        push_char(&mut out, '%');
                    },
                }
                i = i + 3;
            } else {
                push_char(&mut out, '%');
                assert(spec_percent_decode(rest) == seq!['%']);
                assert(out@ =~= spec_percent_decode(s@));
                return out;
            }
        } else {
            assert(rest.skip(1) =~= c@.skip(i + 1));
            push_char(&mut out, c[i]);
            i = i + 1;
        }
    }
    assert(c@.skip(i as int) =~= Seq::<char>::empty());
    assert(out@ =~= spec_percent_decode(s@));
    out
}

/// Percent-decoding undoes the path encoding of an email: an email without
/// `%` comes back unchanged.
pub proof fn lemma_decode_encoded_email(s: Seq<char>)
    requires
        !s.contains('%'),
    ensures
        spec_percent_decode(crate::caldav::spec_encode_email(s)) == s,
    decreases s.len(),
{
    if s.len() > 0 {
        let tail = s.skip(1);
        assert(!tail.contains('%')) by {
            if tail.contains('%') {
                let j = choose|j: int| 0 <= j < tail.len() && tail[j] == '%';
                assert(s[j + 1] == '%');
            }
        }
        lemma_decode_encoded_email(tail);
        let e = crate::caldav::spec_encode_email(tail);
        let whole = crate::caldav::spec_encode_email(s);
        assert(whole == crate::caldav::encode_char(s[0]) + e);
        if s[0] == '@' {
            reveal_strlit("%40");
            assert(whole[0] == '%' && whole[1] == '4' && whole[2] == '0');
            assert(hex_byte('4', '0') == Some(64u8));
            assert((64u8 as char) == '@');
            assert(whole.skip(3) =~= e);
        } else {
            assert(s[0] != '%');
            assert(whole[0] == s[0]);
            assert(whole.skip(1) =~= e);
        }
        assert(s =~= seq![s[0]] + tail);
    }
}


// ---------------------------------------------------------------------------
// calendar-multiget: from hrefs to UIDs
// ---------------------------------------------------------------------------

/// The index of the last `/` in `h`, or -1.
pub open spec fn last_slash(h: Seq<char>) -> int
    decreases h.len(),
{
    if h.len() == 0 {
        -1
    } else if h.last() == '/' {
        h.len() - 1
    } else {
        last_slash(h.drop_last())
    }
}

/// The text after the last `/` of an href (all of it when there is none).
pub open spec fn last_segment(h: Seq<char>) -> Seq<char> {
    h.skip(last_slash(h) + 1)
}

/// The UID an href names: its last segment without the `.ics` suffix,
/// percent-decoded; none when the last segment does not end in `.ics`.
pub open spec fn href_uid(h: Seq<char>) -> Option<Seq<char>> {
    let f = last_segment(h);
    if f.len() >= 4 && f.skip(f.len() - 4) == ".ics"@ {
        Some(spec_percent_decode(f.take(f.len() - 4)))
    } else {
        None
    }
}

/// The UIDs of the hrefs that name one, in order.
pub open spec fn hrefs_uids(hrefs: Seq<Seq<char>>) -> Seq<Seq<char>>
    decreases hrefs.len(),
{
    if hrefs.len() == 0 {
        seq![]
    } else {
        let rest = hrefs_uids(hrefs.drop_last());
        match href_uid(hrefs.last()) {
            Some(u) => rest.push(u),
            None => rest,
        }
    }
}

proof fn lemma_last_slash(h: Seq<char>)
    ensures
        -1 <= last_slash(h) < h.len(),
        last_slash(h) >= 0 ==> h[last_slash(h)] == '/',
        forall|j: int| last_slash(h) < j < h.len() ==> h[j] != '/',
    decreases h.len(),
{
    if h.len() > 0 && h.last() != '/' {
        let d = h.drop_last();
        lemma_last_slash(d);
        assert forall|j: int| last_slash(h) < j < h.len() implies h[j] != '/' by {
            if j < h.len() - 1 {
                assert(h[j] == d[j]);
            }
        }
    }
}

fn slash_after(c: &Vec<char>) -> (r: usize)
    ensures
        r == last_slash(c@) + 1,
{
    proof {
        lemma_last_slash(c@);
    }
    let mut k: usize = c.len();
    while k > 0
        invariant
            k <= c@.len(),
            forall|j: int| k <= j < c@.len() ==> c@[j] != '/',
            -1 <= last_slash(c@) < c@.len(),
            last_slash(c@) >= 0 ==> c@[last_slash(c@)] == '/',
            forall|j: int| last_slash(c@) < j < c@.len() ==> c@[j] != '/',
        decreases k,
    {
        if c[k - 1] == '/' {
            return k;
        }
        k = k - 1;
    }
    k
}

/// The UID an href names (see `href_uid`).
pub fn uid_from_href(href: &str) -> (r: Option<String>)
    ensures
        match r {
            Some(u) => href_uid(href@) == Some(u@),
            None => href_uid(href@) is None,
        },
{
    let c = chars_of(href);
    let start = slash_after(&c);
    proof {
        lemma_last_slash(c@);
    }
    let seg = copy_range(c.as_slice(), start, c.len());
    assert(seg@ =~= last_segment(href@));
    if seg.len() >= 4 {
        let tail = copy_range(seg.as_slice(), seg.len() - 4, seg.len());
        assert(tail@ =~= seg@.skip(seg@.len() - 4));
        if eq_lit(tail.as_slice(), ".ics") {
            let stem = copy_range(seg.as_slice(), 0, seg.len() - 4);
            assert(stem@ =~= seg@.take(seg@.len() - 4));
            let stem_s = string_from_chars(stem.as_slice());
            return Some(percent_decode(stem_s.as_str()));
        }
    }
    None
}

/// The UIDs named by the hrefs of a calendar-multiget, in order; hrefs
/// whose last segment does not end in `.ics` are skipped.
pub fn multiget_uids(hrefs: &Vec<String>) -> (uids: Vec<String>)
    ensures
        string_views(uids@) == hrefs_uids(string_views(hrefs@)),
{
    let ghost hs = string_views(hrefs@);
    let mut uids: Vec<String> = Vec::new();
    let mut i: usize = 0;
    while i < hrefs.len()
        invariant
            hs == string_views(hrefs@),
            i <= hrefs@.len(),
            string_views(uids@) =~= hrefs_uids(hs.take(i as int)),
        decreases hrefs@.len() - i,
    {
        assert(hs.take(i + 1).drop_last() =~= hs.take(i as int));
        let ghost before = uids@;
        match uid_from_href(hrefs[i].as_str()) {
            Some(u) => {
                uids.push(u);
                assert(string_views(uids@) =~= string_views(before).push(uids@.last()@));
            },
            None => {},
        }
        i = i + 1;
    }
    assert(hs.take(i as int) =~= hs);
    uids
}

// ---------------------------------------------------------------------------
// The multistatus bodies
// ---------------------------------------------------------------------------

/// Whether some requested property is `calendar-data`.
pub open spec fn asks_calendar_data(props: Seq<PropRequestView>) -> bool {
    exists|i: int| 0 <= i < props.len() && #[trigger] props[i].local_name == "calendar-data"@
}

/// Whether the client requested `calendar-data`.
pub fn include_calendar_data(props: &Vec<PropRequest>) -> (b: bool)
    ensures
        b == asks_calendar_data(prop_request_views(props@)),
{
    let ghost ps = prop_request_views(props@);
    let mut i: usize = 0;
    while i < props.len()
        invariant
            ps == prop_request_views(props@),
            i <= props@.len(),
            forall|j: int| 0 <= j < i ==> #[trigger] ps[j].local_name != "calendar-data"@,
        decreases props@.len() - i,
    {
        let c = chars_of(props[i].local_name.as_str());
        if eq_lit(c.as_slice(), "calendar-data") {
            assert(ps[i as int].local_name == "calendar-data"@);
            return true;
        }
        i = i + 1;
    }
    false
}

/// One response per object: its href and its properties.
pub open spec fn object_responses(
    email: Option<Seq<char>>,
    username: Seq<char>,
    calendar_id: Seq<char>,
    objects: Seq<CalendarObject>,
    include_data: bool,
) -> Seq<char>
    decreases objects.len(),
{
    if objects.len() == 0 {
        seq![]
    } else {
        object_responses(email, username, calendar_id, objects.drop_last(), include_data)
            + response_text(
            spec_calendar_object_href_for_context(email, username, calendar_id, objects.last().uid@),
            spec_calendar_object_props(objects.last(), include_data),
            seq![],
        )
    }
}

fn add_objects(
    builder: &mut MultistatusBuilder,
    ctx: &HrefContext,
    calendar_id: &str,
    objects: &Vec<CalendarObject>,
    include_data: bool,
)
    ensures
        final(builder)@ == old(builder)@ + object_responses(
            ctx_email(*ctx),
            ctx.username@,
            calendar_id@,
            objects@,
            include_data,
        ),
{
    let ghost start = builder@;
    let mut i: usize = 0;
    while i < objects.len()
        invariant
            i <= objects@.len(),
            builder@ == start + object_responses(
                ctx_email(*ctx),
                ctx.username@,
                calendar_id@,
                objects@.take(i as int),
                include_data,
            ),
        decreases objects@.len() - i,
    {
        assert(objects@.take(i + 1).drop_last() =~= objects@.take(i as int));
        let obj = &objects[i];
        let href = calendar_object_href_for_context(ctx, calendar_id, obj.uid.as_str());
        let props = calendar_object_props(ctx.username.as_str(), calendar_id, obj, include_data);
        let none: Vec<String> = Vec::new();
        assert(string_views(none@) =~= seq![]);
        builder.add_response(href.as_str(), props, none);
        i = i + 1;
        assert(builder@ =~= start + object_responses(
            ctx_email(*ctx),
            ctx.username@,
            calendar_id@,
            objects@.take(i as int),
            include_data,
        ));
    }
    assert(objects@.take(i as int) =~= objects@);
}

/// The body of a calendar-multiget or calendar-query REPORT: one response
/// per object, with its calendar data.
pub fn objects_multistatus(ctx: &HrefContext, calendar_id: &str, objects: &Vec<CalendarObject>) -> (bytes: Vec<u8>)
    ensures
        bytes@ == vstd::utf8::encode_utf8(
            header_text() + object_responses(ctx_email(*ctx), ctx.username@, calendar_id@, objects@, true)
                + end_tag("D:multistatus"@),
        ),
{
    let mut builder = MultistatusBuilder::new();
    add_objects(&mut builder, ctx, calendar_id, objects, true);
    builder.build()
}

/// The response a sync change gets: a 404 status for the href of a
/// deletion, the
/// object's properties when it still exists, nothing otherwise.
pub open spec fn change_response(
    email: Option<Seq<char>>,
    username: Seq<char>,
    calendar_id: Seq<char>,
    change: SyncChange,
    object: Option<CalendarObject>,
    include_data: bool,
) -> Seq<char> {
    let href = spec_calendar_object_href_for_context(email, username, calendar_id, change.object_uid@);
    if change.change_type@ == "deleted"@ {
        status_response_text(href, "HTTP/1.1 404 Not Found"@)
    } else {
        match object {
            Some(o) => response_text(href, spec_calendar_object_props(o, include_data), seq![]),
            None => seq![],
        }
    }
}

/// Delta sync and initial sync answer alike for an object that still
/// exists: the response of its logged creation or modification is the
/// response a full listing gives the object, with the same choice of
/// whether its calendar data is included.
pub proof fn lemma_change_answers_as_listing(
    email: Option<Seq<char>>,
    username: Seq<char>,
    calendar_id: Seq<char>,
    change: SyncChange,
    object: CalendarObject,
    include_data: bool,
)
    requires
        change.change_type@ != "deleted"@,
        change.object_uid@ == object.uid@,
    ensures
        change_response(email, username, calendar_id, change, Some(object), include_data)
            == object_responses(email, username, calendar_id, seq![object], include_data),
{
    let objs = seq![object];
    assert(objs.drop_last() =~= Seq::<CalendarObject>::empty());
    assert(objs.last() == object);
    let r = response_text(
        spec_calendar_object_href_for_context(email, username, calendar_id, object.uid@),
        spec_calendar_object_props(object, include_data),
        seq![],
    );
    assert(object_responses(email, username, calendar_id, objs.drop_last(), include_data)
        == Seq::<char>::empty());
    assert(object_responses(email, username, calendar_id, objs, include_data) =~= r);
}

/// An object's properties carry its calendar data exactly when it was asked
/// for: then `calendar-data` holds the object's iCalendar text.
pub proof fn lemma_calendar_data_when_asked(object: CalendarObject, include_data: bool)
    ensures
        include_data ==> names_value(
            spec_calendar_object_props(object, include_data),
            "calendar-data"@,
            PropContentView::Text(object.ical_data@),
        ),
        !include_data ==> forall|i: int|
            0 <= i < spec_calendar_object_props(object, include_data).len()
                ==> #[trigger] spec_calendar_object_props(object, include_data)[i].name
                != "calendar-data"@,
{
    reveal_strlit("calendar-data");
    reveal_strlit("getetag");
    reveal_strlit("getcontenttype");
    let p = spec_calendar_object_props(object, include_data);
    if include_data {
        assert(p[2].name == "calendar-data"@);
        assert("calendar-data"@.len() != "getetag"@.len());
        assert("calendar-data"@.len() != "getcontenttype"@.len());
    } else {
        assert("calendar-data"@.len() != "getetag"@.len());
        assert("calendar-data"@.len() != "getcontenttype"@.len());
    }
}

/// The responses of the changes, in order.
pub open spec fn change_responses(
    email: Option<Seq<char>>,
    username: Seq<char>,
    calendar_id: Seq<char>,
    changes: Seq<(SyncChange, Option<CalendarObject>)>,
    include_data: bool,
) -> Seq<char>
    decreases changes.len(),
{
    if changes.len() == 0 {
        seq![]
    } else {
        change_responses(email, username, calendar_id, changes.drop_last(), include_data)
            + change_response(
            email,
            username,
            calendar_id,
            changes.last().0,
            changes.last().1,
            include_data,
        )
    }
}

/// The body of a sync-collection REPORT: with an empty client token every
/// object (initial sync), otherwise the logged changes since that token
/// (each with the object as it now stands, when it still exists), and then
/// the calendar's current sync token as a URI.
pub fn sync_multistatus(
    ctx: &HrefContext,
    calendar_id: &str,
    calendar_sync_token: &str,
    include_data: bool,
    client_token: &str,
    objects: &Vec<CalendarObject>,
    changes: &Vec<(SyncChange, Option<CalendarObject>)>,
) -> (bytes: Vec<u8>)
    ensures
        bytes@ == vstd::utf8::encode_utf8(
            header_text() + (if client_token@.len() == 0 {
                object_responses(ctx_email(*ctx), ctx.username@, calendar_id@, objects@, include_data)
            } else {
                change_responses(ctx_email(*ctx), ctx.username@, calendar_id@, changes@, include_data)
            }) + sync_token_text(spec_sync_token_uri(calendar_sync_token@)) + end_tag(
                "D:multistatus"@,
            ),
        ),
{
    let mut builder = MultistatusBuilder::new();
    if client_token.is_empty() {
        add_objects(&mut builder, ctx, calendar_id, objects, include_data);
    } else {
        let ghost start = builder@;
        let mut i: usize = 0;
        while i < changes.len()
            invariant
                i <= changes@.len(),
                builder@ == start + change_responses(
                    ctx_email(*ctx),
                    ctx.username@,
                    calendar_id@,
                    changes@.take(i as int),
                    include_data,
                ),
            decreases changes@.len() - i,
        {
            assert(changes@.take(i + 1).drop_last() =~= changes@.take(i as int));
            let change = &changes[i].0;
            let href = calendar_object_href_for_context(ctx, calendar_id, change.object_uid.as_str());
            let kind = chars_of(change.change_type.as_str());
            let none: Vec<String> = Vec::new();
            assert(string_views(none@) =~= seq![]);
            if eq_lit(kind.as_slice(), "deleted") {
                builder.add_status_response(href.as_str(), "HTTP/1.1 404 Not Found");
            } else {
                match &changes[i].1 {
                    Some(obj) => {
                        let props = calendar_object_props(
                            ctx.username.as_str(),
                            calendar_id,
                            obj,
                            include_data,
                        );
                        builder.add_response(href.as_str(), props, none);
                    },
                    None => {},
                }
            }
            i = i + 1;
            assert(builder@ =~= start + change_responses(
                ctx_email(*ctx),
                ctx.username@,
                calendar_id@,
                changes@.take(i as int),
                include_data,
            ));
        }
        assert(changes@.take(i as int) =~= changes@);
    }
    let token_uri = ensure_sync_token_uri(calendar_sync_token);
    builder.add_sync_token(token_uri.as_str());
    builder.build()
}

} // verus!
