//! CalDAV protocol logic: XML bodies, hrefs and per-request decisions.
pub mod auth;
pub mod dispatch;
pub mod mkcalendar;
pub mod propfind;
pub mod proppatch;
pub mod put;
pub mod report;
pub mod xml;

use vstd::prelude::*;

verus! {

/// Context for building hrefs in responses. When email is set, hrefs use the
/// email-based path (`/calendar/dav/{email}/user/...`); otherwise they use the
/// username-based path (`/caldav/users/{username}/...`).
#[derive(Clone, Debug)]
pub struct HrefContext {
    pub email: Option<String>,
    pub username: String,
}


/// One character of an email in a path: `@` becomes `%40`.
pub open spec fn encode_char(c: char) -> Seq<char> {
    if c == '@' {
        "%40"@
    } else {
        seq![c]
    }
}

/// An email with each `@` written as `%40`.
pub open spec fn spec_encode_email(s: Seq<char>) -> Seq<char>
    decreases s.len(),
{
    if s.len() == 0 {
        seq![]
    } else {
        encode_char(s[0]) + spec_encode_email(s.skip(1))
    }
}

proof fn lemma_encode_push(s: Seq<char>, c: char)
    ensures
        spec_encode_email(s.push(c)) == spec_encode_email(s) + encode_char(c),
    decreases s.len(),
{
    if s.len() == 0 {
        assert(seq![c].skip(1) =~= Seq::<char>::empty());
        assert(spec_encode_email(seq![c]) == encode_char(c) + spec_encode_email(seq![c].skip(1)));
        assert(s.push(c) =~= seq![c]);
    } else {
        assert(s.push(c).skip(1) =~= s.skip(1).push(c));
        lemma_encode_push(s.skip(1), c);
        assert(spec_encode_email(s.push(c)) == encode_char(s[0]) + spec_encode_email(
            s.skip(1).push(c),
        ));
    }
}

/// Percent-encode an email for use in URL path segments (@ → %40).
/// axum's Path extractor decodes %40 to @, so we must re-encode
/// when building hrefs that will appear in XML responses.
pub fn encode_email_for_path(email: &str) -> (r: String)
    ensures
        r@ == spec_encode_email(email@),
{
    let c = crate::text::chars_of(email);
    let mut r = String::new();
    let mut i: usize = 0;
    while i < c.len()
        invariant
            c@ == email@,
            i <= c@.len(),
            r@ == spec_encode_email(c@.take(i as int)),
        decreases c@.len() - i,
    {
        proof {
            lemma_encode_push(c@.take(i as int), c@[i as int]);
            assert(c@.take(i + 1) =~= c@.take(i as int).push(c@[i as int]));
        }
        if c[i] == '@' {
            r.append("%40");
        } else {
            crate::text::push_char(&mut r, c[i]);
            assert(seq![c@[i as int]] =~= Seq::<char>::empty().push(c@[i as int]));
        }
        i = i + 1;
    }
    assert(c@.take(i as int) =~= c@);
    r
}

} // verus!
