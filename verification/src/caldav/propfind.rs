//! The multistatus answers of PROPFIND on the roots, homes and calendars.
use vstd::prelude::*;

use super::xml::multistatus::{
    end_tag, header_text, prop_views, response_text, MultistatusBuilder, PropValue,
    PropValueView,
};
use super::xml::parse::{PropfindRequest, PropfindRequestView};
use super::xml::properties::{
    calendar_href, calendar_href_for_context, calendar_home_props, calendar_object_href_for_context,
    calendar_object_props, calendar_props, calendar_props_for_context, ctx_email,
    email_home_props, filter_props, root_props, root_props_unauthenticated,
    spec_calendar_href, spec_calendar_href_for_context, spec_calendar_home_props,
    spec_calendar_object_href_for_context, spec_calendar_object_props, spec_calendar_props,
    spec_calendar_props_for_context, spec_email_home_props, spec_filter_props, spec_root_props,
    spec_root_props_unauthenticated, user_path,
};
use super::{encode_email_for_path, spec_encode_email, HrefContext};
use crate::db::models::{Calendar, CalendarObject};
use crate::text::{cat3, chars_of, eq_lit, string_views};

verus! {

/// The Depth header: `1` means one level down; anything else (including
/// `infinity`, capped for safety) and no header mean the resource alone.
pub open spec fn spec_depth(header: Option<Seq<char>>) -> u32 {
    match header {
        Some(v) => if v == "1"@ {
            1
        } else {
            0
        },
        None => 0,
    }
}

/// Extract the Depth header value (0 or 1, default 0) from the header's
/// text, when the request has one that is visible ASCII.
pub fn depth_from_header(value: Option<&str>) -> (d: u32)
    ensures
        d == spec_depth(
            match value {
                Some(v) => Some(v@),
                None => None,
            },
        ),
{
    match value {
        Some(v) => {
            let c = chars_of(v);
            if eq_lit(c.as_slice(), "1") {
                1
            } else {
                0
            }
        },
        None => 0,
    }
}

/// A response as the filter of a PROPFIND shapes it.
pub open spec fn filtered_response(
    href: Seq<char>,
    req: PropfindRequestView,
    props: Seq<PropValueView>,
) -> Seq<char> {
    response_text(href, spec_filter_props(req, props).0, spec_filter_props(req, props).1)
}

fn add_filtered(builder: &mut MultistatusBuilder, href: &str, req: &PropfindRequest, props: Vec<PropValue>)
    ensures
        final(builder)@ == old(builder)@ + filtered_response(href@, req@, prop_views(props@)),
{
    let (found, not_found) = filter_props(req, props);
    builder.add_response(href, found, not_found);
}

/// The multistatus text of a document with the given responses.
pub open spec fn document(responses: Seq<char>) -> Seq<u8> {
    vstd::utf8::encode_utf8(header_text() + responses + end_tag("D:multistatus"@))
}

/// The answer to PROPFIND on a root (`/`, `/caldav/`, `/principals/`):
/// the root's properties under `href`, for the authenticated user when
/// there is one.
pub fn root_multistatus(href: &str, username: Option<&str>) -> (bytes: Vec<u8>)
    ensures
        bytes@ == document(
            response_text(
                href@,
                match username {
                    Some(u) => spec_root_props(u@),
                    None => spec_root_props_unauthenticated(),
                },
                seq![],
            ),
        ),
{
    let mut builder = MultistatusBuilder::new();
    let props = match username {
        Some(u) => root_props(u),
        None => root_props_unauthenticated(),
    };
    let none: Vec<String> = Vec::new();
    assert(string_views(none@) =~= seq![]);
    builder.add_response(href, props, none);
    builder.build()
}

/// One filtered response per calendar, at the given hrefs.
pub open spec fn home_calendar_responses(
    username: Seq<char>,
    req: PropfindRequestView,
    cals: Seq<Calendar>,
) -> Seq<char>
    decreases cals.len(),
{
    if cals.len() == 0 {
        seq![]
    } else {
        home_calendar_responses(username, req, cals.drop_last()) + filtered_response(
            spec_calendar_href(username, cals.last().id@),
            req,
            spec_calendar_props(username, cals.last()),
        )
    }
}

/// The answer to PROPFIND on a calendar home: the home itself, and with
/// depth 1 each calendar the user can reach.
pub fn calendar_home_multistatus(
    username: &str,
    propfind: &PropfindRequest,
    depth: u32,
    calendars: &Vec<Calendar>,
) -> (bytes: Vec<u8>)
    ensures
        bytes@ == document(
            filtered_response(user_path(username@), propfind@, spec_calendar_home_props(username@))
                + (if depth >= 1 {
                home_calendar_responses(username@, propfind@, calendars@)
            } else {
                seq![]
            }),
        ),
{
    let mut builder = MultistatusBuilder::new();
    let ghost start = builder@;
    let home = cat3("/caldav/users/", username, "/");
    add_filtered(&mut builder, home.as_str(), propfind, calendar_home_props(username));
    let ghost after_home = builder@;
    if depth >= 1 {
        let mut i: usize = 0;
        while i < calendars.len()
            invariant
                i <= calendars@.len(),
                builder@ == after_home + home_calendar_responses(
                    username@,
                    propfind@,
                    calendars@.take(i as int),
                ),
            decreases calendars@.len() - i,
        {
            assert(calendars@.take(i + 1).drop_last() =~= calendars@.take(i as int));
            let cal = &calendars[i];
            let href = calendar_href(username, cal.id.as_str());
            add_filtered(&mut builder, href.as_str(), propfind, calendar_props(username, cal));
            i = i + 1;
            assert(builder@ =~= after_home + home_calendar_responses(
                username@,
                propfind@,
                calendars@.take(i as int),
            ));
        }
        assert(calendars@.take(i as int) =~= calendars@);
    }
    assert(builder@ =~= header_text() + (filtered_response(
        user_path(username@),
        propfind@,
        spec_calendar_home_props(username@),
    ) + (if depth >= 1 {
        home_calendar_responses(username@, propfind@, calendars@)
    } else {
        seq![]
    })));
    builder.build()
}

/// One filtered response per calendar, with the context's hrefs.
pub open spec fn context_calendar_responses(
    email: Option<Seq<char>>,
    username: Seq<char>,
    req: PropfindRequestView,
    cals: Seq<Calendar>,
) -> Seq<char>
    decreases cals.len(),
{
    if cals.len() == 0 {
        seq![]
    } else {
        context_calendar_responses(email, username, req, cals.drop_last()) + filtered_response(
            spec_calendar_href_for_context(email, username, cals.last().id@),
            req,
            spec_calendar_props_for_context(email, username, cals.last()),
        )
    }
}

fn add_context_calendars(
    builder: &mut MultistatusBuilder,
    ctx: &HrefContext,
    propfind: &PropfindRequest,
    calendars: &Vec<Calendar>,
)
    ensures
        final(builder)@ == old(builder)@ + context_calendar_responses(
            ctx_email(*ctx),
            ctx.username@,
            propfind@,
            calendars@,
        ),
{
    let ghost start = builder@;
    let mut i: usize = 0;
    while i < calendars.len()
        invariant
            i <= calendars@.len(),
            builder@ == start + context_calendar_responses(
                ctx_email(*ctx),
                ctx.username@,
                propfind@,
                calendars@.take(i as int),
            ),
        decreases calendars@.len() - i,
    {
        assert(calendars@.take(i + 1).drop_last() =~= calendars@.take(i as int));
        let cal = &calendars[i];
        let href = calendar_href_for_context(ctx, cal.id.as_str());
        add_filtered(builder, href.as_str(), propfind, calendar_props_for_context(ctx, cal));
        i = i + 1;
        assert(builder@ =~= start + context_calendar_responses(
            ctx_email(*ctx),
            ctx.username@,
            propfind@,
            calendars@.take(i as int),
        ));
    }
    assert(calendars@.take(i as int) =~= calendars@);
}

/// The path of a user's email home as the client sees it:
/// `/calendar/dav/{email with @ as %40}/user/`.
pub fn email_request_path(email: &str) -> (p: String)
    ensures
        p@ == "/calendar/dav/"@ + spec_encode_email(email@) + "/user/"@,
{
    let encoded = encode_email_for_path(email);
    cat3("/calendar/dav/", encoded.as_str(), "/user/")
}

/// The answer to PROPFIND on the email home: the home with its principal
/// properties at `request_path`, and with depth 1 each calendar the user can
/// reach, with hrefs under the email path.
pub fn email_home_multistatus(
    username: &str,
    email: &str,
    request_path: &str,
    propfind: &PropfindRequest,
    depth: u32,
    calendars: &Vec<Calendar>,
) -> (bytes: Vec<u8>)
    ensures
        bytes@ == document(
            filtered_response(
                request_path@,
                propfind@,
                spec_email_home_props(username@, email@, request_path@),
            ) + (if depth >= 1 {
                context_calendar_responses(
                    Some(spec_encode_email(email@)),
                    username@,
                    propfind@,
                    calendars@,
                )
            } else {
                seq![]
            }),
        ),
{
    let ctx = HrefContext {
        email: Some(encode_email_for_path(email)),
        username: String::from_str(username),
    };
    let mut builder = MultistatusBuilder::new();
    let ghost start = builder@;
    add_filtered(&mut builder, request_path, propfind, email_home_props(username, email, request_path));
    let ghost after_home = builder@;
    if depth >= 1 {
        add_context_calendars(&mut builder, &ctx, propfind, calendars);
    }
    assert(builder@ =~= header_text() + (filtered_response(
        request_path@,
        propfind@,
        spec_email_home_props(username@, email@, request_path@),
    ) + (if depth >= 1 {
        context_calendar_responses(Some(spec_encode_email(email@)), username@, propfind@, calendars@)
    } else {
        seq![]
    })));
    builder.build()
}

/// One filtered response per object of a calendar (without calendar data).
pub open spec fn calendar_object_responses(
    email: Option<Seq<char>>,
    username: Seq<char>,
    calendar_id: Seq<char>,
    req: PropfindRequestView,
    objects: Seq<CalendarObject>,
) -> Seq<char>
    decreases objects.len(),
{
    if objects.len() == 0 {
        seq![]
    } else {
        calendar_object_responses(email, username, calendar_id, req, objects.drop_last())
            + filtered_response(
            spec_calendar_object_href_for_context(email, username, calendar_id, objects.last().uid@),
            req,
            spec_calendar_object_props(objects.last(), false),
        )
    }
}

fn add_calendar_objects(
    builder: &mut MultistatusBuilder,
    ctx: &HrefContext,
    calendar_id: &str,
    propfind: &PropfindRequest,
    objects: &Vec<CalendarObject>,
)
    ensures
        final(builder)@ == old(builder)@ + calendar_object_responses(
            ctx_email(*ctx),
            ctx.username@,
            calendar_id@,
            propfind@,
            objects@,
        ),
{
    let ghost start = builder@;
    let mut i: usize = 0;
    while i < objects.len()
        invariant
            i <= objects@.len(),
            builder@ == start + calendar_object_responses(
                ctx_email(*ctx),
                ctx.username@,
                calendar_id@,
                propfind@,
                objects@.take(i as int),
            ),
        decreases objects@.len() - i,
    {
        assert(objects@.take(i + 1).drop_last() =~= objects@.take(i as int));
        let obj = &objects[i];
        let obj_href = calendar_object_href_for_context(ctx, calendar_id, obj.uid.as_str());
        let props = calendar_object_props(ctx.username.as_str(), calendar_id, obj, false);
        add_filtered(builder, obj_href.as_str(), propfind, props);
        i = i + 1;
        assert(builder@ =~= start + calendar_object_responses(
            ctx_email(*ctx),
            ctx.username@,
            calendar_id@,
            propfind@,
            objects@.take(i as int),
        ));
    }
    assert(objects@.take(i as int) =~= objects@);
}

/// The answer to PROPFIND on a calendar: the calendar itself, and with
/// depth 1 each of its objects (ETag and content type).
pub fn calendar_multistatus(
    ctx: &HrefContext,
    calendar: &Calendar,
    propfind: &PropfindRequest,
    depth: u32,
    objects: &Vec<CalendarObject>,
) -> (bytes: Vec<u8>)
    ensures
        bytes@ == document(
            filtered_response(
                spec_calendar_href_for_context(ctx_email(*ctx), ctx.username@, calendar.id@),
                propfind@,
                spec_calendar_props_for_context(ctx_email(*ctx), ctx.username@, *calendar),
            ) + (if depth >= 1 {
                calendar_object_responses(
                    ctx_email(*ctx),
                    ctx.username@,
                    calendar.id@,
                    propfind@,
                    objects@,
                )
            } else {
                seq![]
            }),
        ),
{
    let mut builder = MultistatusBuilder::new();
    let ghost start = builder@;
    let href = calendar_href_for_context(ctx, calendar.id.as_str());
    add_filtered(&mut builder, href.as_str(), propfind, calendar_props_for_context(ctx, calendar));
    if depth >= 1 {
        add_calendar_objects(&mut builder, ctx, calendar.id.as_str(), propfind, objects);
    }
    assert(builder@ =~= header_text() + (filtered_response(
        spec_calendar_href_for_context(ctx_email(*ctx), ctx.username@, calendar.id@),
        propfind@,
        spec_calendar_props_for_context(ctx_email(*ctx), ctx.username@, *calendar),
    ) + (if depth >= 1 {
        calendar_object_responses(ctx_email(*ctx), ctx.username@, calendar.id@, propfind@, objects@)
    } else {
        seq![]
    })));
    builder.build()
}

} // verus!
