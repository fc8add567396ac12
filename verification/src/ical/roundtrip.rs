//! What the parser reads back from the text the builder writes.
use vstd::prelude::*;

use super::builder::{crlf_join, vevent_lines, vtimezone_lines, std_offset, dst_offset};
use super::parser::{
    component_step, extract_state, initial_fields, is_continuation, property_step, spec_extract_fields,
    spec_extract_property, spec_lines, spec_unfold_lines, strip_cr, trim_end_cr, unfold_state,
    IcalFieldsView,
};
use crate::text::{
    first_index_of, has_prefix, is_ws, lemma_first_index_of_unique, trim, trim_end, trim_start,
};

verus! {

/// No character of the text is a line feed.
pub open spec fn no_lf(s: Seq<char>) -> bool {
    forall|i: int| 0 <= i < s.len() ==> s[i] != '\n'
}

proof fn lemma_crlf_front(l: Seq<char>, rest: Seq<Seq<char>>)
    ensures
        crlf_join(seq![l] + rest) == l + "\r\n"@ + crlf_join(rest),
    decreases rest.len(),
{
    if rest.len() == 0 {
        assert(seq![l] + rest =~= seq![l]);
        assert(seq![l].drop_last() =~= Seq::<Seq<char>>::empty());
        assert(crlf_join(seq![l]) == crlf_join(Seq::<Seq<char>>::empty()) + l + "\r\n"@);
        assert(l + "\r\n"@ + crlf_join(rest) =~= crlf_join(seq![l]));
    } else {
        lemma_crlf_front(l, rest.drop_last());
        assert((seq![l] + rest).drop_last() =~= seq![l] + rest.drop_last());
        assert((seq![l] + rest).last() == rest.last());
        assert(crlf_join(seq![l] + rest) =~= l + "\r\n"@ + crlf_join(rest));
    }
}

/// The lines of text written line by line with CRLF are those lines.
proof fn lemma_lines_of_crlf(lines: Seq<Seq<char>>)
    requires
        forall|i: int| 0 <= i < lines.len() ==> no_lf(#[trigger] lines[i]),
    ensures
        spec_lines(crlf_join(lines)) == lines,
    decreases lines.len(),
{
    reveal_strlit("\r\n");
    if lines.len() == 0 {
        assert(crlf_join(lines).len() == 0);
        assert(spec_lines(crlf_join(lines)) =~= lines);
    } else {
        let l = lines[0];
        let rest = lines.drop_first();
        assert(lines =~= seq![l] + rest);
        lemma_crlf_front(l, rest);
        assert forall|i: int| 0 <= i < rest.len() implies no_lf(#[trigger] rest[i]) by {
            assert(rest[i] == lines[i + 1]);
        }
        lemma_lines_of_crlf(rest);
        let s = crlf_join(lines);
        let n: int = l.len() as int;
        assert(s =~= l + "\r\n"@ + crlf_join(rest));
        assert(no_lf(lines[0]));
        assert forall|j: int| 0 <= j < l.len() + 1 implies s[j] != '\n' by {
            if j < l.len() {
                assert(s[j] == l[j]);
            } else {
                assert(s[j] == '\r');
            }
        }
        assert(s[n + 1] == '\n');
        lemma_first_index_of_unique(s, '\n', n + 1);
        assert(s.take(n + 1) =~= l.push('\r'));
        assert(strip_cr(l.push('\r')) =~= l);
        assert(s.skip(n + 2) =~= crlf_join(rest));
        assert(spec_lines(s) =~= seq![l] + rest);
    }
}

/// A line that unfolding does not join to the one before it: its first
/// character is not a blank, and it is not empty once its trailing carriage
/// returns are gone.
pub open spec fn plain_line(l: Seq<char>) -> bool {
    &&& l.len() > 0
    &&& !is_ws(l[0])
}

proof fn lemma_trim_end_cr_keeps_head(l: Seq<char>)
    requires
        plain_line(l),
    ensures
        trim_end_cr(l).len() > 0,
        trim_end_cr(l)[0] == l[0],
        trim_end(trim_end_cr(l)) == trim_end(l),
    decreases l.len(),
{
    if l.last() == '\r' {
        assert(l.len() > 1) by {
            if l.len() == 1 {
                assert(l[0] == l.last());
            }
        }
        let d = l.drop_last();
        assert(plain_line(d));
        lemma_trim_end_cr_keeps_head(d);
    }
}

/// The unfolded lines of plain lines: each without its trailing carriage
/// returns.
pub open spec fn without_crs(lines: Seq<Seq<char>>) -> Seq<Seq<char>> {
    lines.map_values(|l: Seq<char>| trim_end_cr(l))
}

proof fn lemma_unfold_plain(lines: Seq<Seq<char>>)
    requires
        lines.len() > 0,
        forall|i: int| 0 <= i < lines.len() ==> plain_line(#[trigger] lines[i]),
    ensures
        unfold_state(lines) == (without_crs(lines.drop_last()), trim_end_cr(lines.last())),
    decreases lines.len(),
{
    let d = lines.drop_last();
    assert(plain_line(lines[lines.len() - 1]));
    lemma_trim_end_cr_keeps_head(lines.last());
    if d.len() > 0 {
        assert forall|i: int| 0 <= i < d.len() implies plain_line(#[trigger] d[i]) by {
            assert(d[i] == lines[i]);
        }
        lemma_unfold_plain(d);
        assert(plain_line(lines[d.len() - 1]));
        assert(d.last() == lines[d.len() - 1]);
        lemma_trim_end_cr_keeps_head(d.last());
        assert(without_crs(d.drop_last()).push(trim_end_cr(d.last())) =~= without_crs(d));
    } else {
        assert(unfold_state(d) == (Seq::<Seq<char>>::empty(), Seq::<char>::empty()));
        assert(without_crs(d) =~= Seq::<Seq<char>>::empty());
    }
}

/// Unfolding text written line by line with CRLF gives back the lines
/// without their trailing carriage returns, when none holds a line feed and
/// each starts with a character that is not a blank.
pub proof fn lemma_unfold_crlf(lines: Seq<Seq<char>>)
    requires
        lines.len() > 0,
        forall|i: int| 0 <= i < lines.len() ==> no_lf(#[trigger] lines[i]) && plain_line(lines[i]),
    ensures
        spec_unfold_lines(crlf_join(lines)) == without_crs(lines),
{
    lemma_lines_of_crlf(lines);
    lemma_unfold_plain(lines);
    lemma_trim_end_cr_keeps_head(lines.last());
    assert(without_crs(lines.drop_last()).push(trim_end_cr(lines.last())) =~= without_crs(lines));
}


/// One line of extraction: the line trimmed, then the component marker and
/// the property it holds.
pub open spec fn step(st: (IcalFieldsView, bool), line: Seq<char>) -> (IcalFieldsView, bool) {
    let t = trim(line);
    let c = component_step(st.0, st.1, t);
    (property_step(c.0, c.1, t), c.1)
}

/// Extraction from a state over lines.
pub open spec fn run(st: (IcalFieldsView, bool), lines: Seq<Seq<char>>) -> (IcalFieldsView, bool)
    decreases lines.len(),
{
    if lines.len() == 0 {
        st
    } else {
        step(run(st, lines.drop_last()), lines.last())
    }
}

proof fn lemma_extract_is_run(lines: Seq<Seq<char>>)
    ensures
        extract_state(lines) == run((initial_fields(), false), lines),
    decreases lines.len(),
{
    if lines.len() > 0 {
        lemma_extract_is_run(lines.drop_last());
    }
}

proof fn lemma_run_concat(st: (IcalFieldsView, bool), a: Seq<Seq<char>>, b: Seq<Seq<char>>)
    ensures
        run(st, a + b) == run(run(st, a), b),
    decreases b.len(),
{
    if b.len() == 0 {
        assert(a + b =~= a);
    } else {
        lemma_run_concat(st, a, b.drop_last());
        assert((a + b).drop_last() =~= a + b.drop_last());
        assert((a + b).last() == b.last());
    }
}

proof fn lemma_trim_end_prefix(x: Seq<char>)
    ensures
        trim_end(x).len() <= x.len(),
        trim_end(x) == x.take(trim_end(x).len() as int),
        forall|j: int| 0 <= j < x.len() && !is_ws(#[trigger] x[j]) ==> j < trim_end(x).len(),
    decreases x.len(),
{
    if x.len() > 0 && is_ws(x.last()) {
        let d = x.drop_last();
        lemma_trim_end_prefix(d);
        assert(d.take(trim_end(d).len() as int) =~= x.take(trim_end(d).len() as int));
        assert forall|j: int| 0 <= j < x.len() && !is_ws(#[trigger] x[j]) implies j < trim_end(x).len() by {
            if j < x.len() - 1 {
                assert(d[j] == x[j]);
            }
        }
    } else {
        assert(x.take(x.len() as int) =~= x);
    }
}

proof fn lemma_run_without_crs(st: (IcalFieldsView, bool), lines: Seq<Seq<char>>)
    requires
        forall|i: int| 0 <= i < lines.len() ==> plain_line(#[trigger] lines[i]),
    ensures
        run(st, without_crs(lines)) == run(st, lines),
    decreases lines.len(),
{
    if lines.len() > 0 {
        let d = lines.drop_last();
        assert forall|i: int| 0 <= i < d.len() implies plain_line(#[trigger] d[i]) by {
            assert(d[i] == lines[i]);
        }
        lemma_run_without_crs(st, d);
        assert(without_crs(lines).drop_last() =~= without_crs(d));
        let l = lines.last();
        assert(plain_line(lines[lines.len() - 1]));
        lemma_trim_end_cr_keeps_head(l);
        let c = trim_end_cr(l);
        assert(trim_start(c) == c);
        assert(trim_start(l) == l);
        assert(trim(c) == trim(l));
    }
}

/// A line made of a literal head (first and last characters not blank) and
/// any tail keeps the head when trimmed, and is unchanged when the tail is
/// empty or ends in a character that is not blank.
proof fn lemma_trim_head(head: Seq<char>, tail: Seq<char>)
    requires
        head.len() > 0,
        !is_ws(head[0]),
        !is_ws(head.last()),
    ensures
        trim(head + tail).len() >= head.len(),
        trim(head + tail).take(head.len() as int) == head,
        tail.len() == 0 || !is_ws(tail.last()) ==> trim(head + tail) == head + tail,
{
    let x = head + tail;
    assert(x[0] == head[0]);
    assert(trim_start(x) == x);
    lemma_trim_end_prefix(x);
    assert(x[head.len() - 1] == head.last());
    assert(x.take(head.len() as int) =~= head);
    let t = trim_end(x);
    assert(t.take(head.len() as int) =~= head) by {
        assert forall|j: int| 0 <= j < head.len() implies t.take(head.len() as int)[j] == head[j] by {
            assert(t[j] == x[j]);
        }
    }
    if tail.len() == 0 || !is_ws(tail.last()) {
        assert(x.last() == if tail.len() == 0 { head.last() } else { tail.last() });
        assert(!is_ws(x[x.len() - 1]));
        assert(t.len() == x.len());
        assert(t =~= x);
    }
}

/// A text that differs from `p` at an index below `p`'s length does not
/// start with `p`.
proof fn lemma_not_prefix(t: Seq<char>, p: Seq<char>, i: int)
    requires
        0 <= i < p.len(),
        i < t.len(),
        t[i] != p[i],
    ensures
        !has_prefix(t, p),
{
    if p.len() <= t.len() {
        assert(t.take(p.len() as int)[i] == t[i]);
    }
}


/// A line with a literal head that differs from `p` within the head does
/// not start with `p` once trimmed.
proof fn lemma_head_not_prefix(head: Seq<char>, tail: Seq<char>, p: Seq<char>, i: int)
    requires
        head.len() > 0,
        !is_ws(head[0]),
        !is_ws(head.last()),
        0 <= i < head.len(),
        i < p.len(),
        head[i] != p[i],
    ensures
        !has_prefix(trim(head + tail), p),
{
    lemma_trim_head(head, tail);
    let t = trim(head + tail);
    assert(t[i] == t.take(head.len() as int)[i]);
    lemma_not_prefix(t, p, i);
}

/// The component markers.
pub open spec fn no_marker(t: Seq<char>) -> bool {
    &&& !has_prefix(t, "BEGIN:VEVENT"@)
    &&& !has_prefix(t, "BEGIN:VTODO"@)
    &&& !has_prefix(t, "END:VEVENT"@)
    &&& !has_prefix(t, "END:VTODO"@)
}

/// None of the properties the extraction reads.
pub open spec fn no_property(t: Seq<char>) -> bool {
    &&& !has_prefix(t, "UID"@)
    &&& !has_prefix(t, "DTSTART"@)
    &&& !has_prefix(t, "DTEND"@)
    &&& !has_prefix(t, "DUE"@)
    &&& !has_prefix(t, "SUMMARY"@)
}

/// A line with no marker and no UID changes nothing outside a component.
proof fn lemma_step_outside(st: (IcalFieldsView, bool), line: Seq<char>)
    requires
        !st.1,
        no_marker(trim(line)),
        !has_prefix(trim(line), "UID"@),
    ensures
        step(st, line) == st,
{
}

/// A line with no marker and no property changes nothing inside a
/// component.
proof fn lemma_step_inside(st: (IcalFieldsView, bool), line: Seq<char>)
    requires
        st.1,
        no_marker(trim(line)),
        no_property(trim(line)),
    ensures
        step(st, line) == st,
{
}

/// `NAME:value` gives the value of NAME.
proof fn lemma_extract_colon(head: Seq<char>, name: Seq<char>, v: Seq<char>)
    requires
        head == name.push(':'),
    ensures
        spec_extract_property(head + v, name) == Some(v),
{
    let t = head + v;
    assert(t.take(name.len() as int) =~= name);
    assert(t.skip(name.len() as int) =~= seq![':'] + v);
    assert((seq![':'] + v).skip(1) =~= v);
}

/// `NAME;TZID=tz:value` gives the value of NAME when the zone holds no `:`.
proof fn lemma_extract_param(head: Seq<char>, name: Seq<char>, params: Seq<char>, tz: Seq<char>, v: Seq<char>)
    requires
        head == name + params,
        params.len() > 0,
        params[0] == ';',
        !params.contains(':'),
        !tz.contains(':'),
    ensures
        spec_extract_property(head + tz + ":"@ + v, name) == Some(v),
{
    reveal_strlit(":");
    let t = head + tz + ":"@ + v;
    assert(t.take(name.len() as int) =~= name);
    let rest = t.skip(name.len() as int);
    assert(rest =~= params + tz + seq![':'] + v);
    let k: int = (params.len() + tz.len()) as int;
    assert forall|j: int| 0 <= j < k implies rest[j] != ':' by {
        if j < params.len() {
            assert(rest[j] == params[j]);
            if params[j] == ':' {
                assert(params.contains(':'));
            }
        } else {
            assert(rest[j] == tz[j - params.len()]);
            if tz[j - params.len()] == ':' {
                assert(tz.contains(':'));
            }
        }
    }
    assert(rest[k] == ':');
    lemma_first_index_of_unique(rest, ':', k);
    assert(rest.skip(k + 1) =~= v);
}


/// A head that is neither blank at its first nor at its last character.
pub open spec fn solid(head: Seq<char>) -> bool {
    head.len() > 0 && !is_ws(head[0]) && !is_ws(head.last())
}

/// A line outside any component whose head differs from each marker and
/// from `UID` at the given indices changes nothing.
proof fn lemma_outside(
    st: (IcalFieldsView, bool),
    head: Seq<char>,
    tail: Seq<char>,
    i1: int,
    i2: int,
    i3: int,
    i4: int,
    iu: int,
)
    requires
        !st.1,
        solid(head),
        0 <= i1 < head.len() && i1 < "BEGIN:VEVENT"@.len() && head[i1] != "BEGIN:VEVENT"@[i1],
        0 <= i2 < head.len() && i2 < "BEGIN:VTODO"@.len() && head[i2] != "BEGIN:VTODO"@[i2],
        0 <= i3 < head.len() && i3 < "END:VEVENT"@.len() && head[i3] != "END:VEVENT"@[i3],
        0 <= i4 < head.len() && i4 < "END:VTODO"@.len() && head[i4] != "END:VTODO"@[i4],
        0 <= iu < head.len() && iu < "UID"@.len() && head[iu] != "UID"@[iu],
    ensures
        step(st, head + tail) == st,
{
    lemma_head_not_prefix(head, tail, "BEGIN:VEVENT"@, i1);
    lemma_head_not_prefix(head, tail, "BEGIN:VTODO"@, i2);
    lemma_head_not_prefix(head, tail, "END:VEVENT"@, i3);
    lemma_head_not_prefix(head, tail, "END:VTODO"@, i4);
    lemma_head_not_prefix(head, tail, "UID"@, iu);
    lemma_step_outside(st, head + tail);
}

/// A line outside any component made of a literal only (see
/// `lemma_outside`).
proof fn lemma_outside_literal(
    st: (IcalFieldsView, bool),
    line: Seq<char>,
    i1: int,
    i2: int,
    i3: int,
    i4: int,
    iu: int,
)
    requires
        !st.1,
        solid(line),
        0 <= i1 < line.len() && i1 < "BEGIN:VEVENT"@.len() && line[i1] != "BEGIN:VEVENT"@[i1],
        0 <= i2 < line.len() && i2 < "BEGIN:VTODO"@.len() && line[i2] != "BEGIN:VTODO"@[i2],
        0 <= i3 < line.len() && i3 < "END:VEVENT"@.len() && line[i3] != "END:VEVENT"@[i3],
        0 <= i4 < line.len() && i4 < "END:VTODO"@.len() && line[i4] != "END:VTODO"@[i4],
        0 <= iu < line.len() && iu < "UID"@.len() && line[iu] != "UID"@[iu],
    ensures
        step(st, line) == st,
{
    lemma_outside(st, line, Seq::<char>::empty(), i1, i2, i3, i4, iu);
    assert(line + Seq::<char>::empty() =~= line);
}

/// A line inside a component whose head differs from each marker and each
/// property name at the given indices changes nothing.
proof fn lemma_inside(
    st: (IcalFieldsView, bool),
    head: Seq<char>,
    tail: Seq<char>,
    im: int,
    iu: int,
    is: int,
    ie: int,
    id: int,
    ism: int,
)
    requires
        st.1,
        solid(head),
        0 <= im < head.len() && im < 9 && head[im] != "BEGIN:VEVENT"@[im] && head[im] != "BEGIN:VTODO"@[im]
            && head[im] != "END:VEVENT"@[im] && head[im] != "END:VTODO"@[im],
        0 <= iu < head.len() && iu < "UID"@.len() && head[iu] != "UID"@[iu],
        0 <= is < head.len() && is < "DTSTART"@.len() && head[is] != "DTSTART"@[is],
        0 <= ie < head.len() && ie < "DTEND"@.len() && head[ie] != "DTEND"@[ie],
        0 <= id < head.len() && id < "DUE"@.len() && head[id] != "DUE"@[id],
        0 <= ism < head.len() && ism < "SUMMARY"@.len() && head[ism] != "SUMMARY"@[ism],
    ensures
        step(st, head + tail) == st,
{
    reveal_strlit("BEGIN:VEVENT");
    reveal_strlit("BEGIN:VTODO");
    reveal_strlit("END:VEVENT");
    reveal_strlit("END:VTODO");
    lemma_head_not_prefix(head, tail, "BEGIN:VEVENT"@, im);
    lemma_head_not_prefix(head, tail, "BEGIN:VTODO"@, im);
    lemma_head_not_prefix(head, tail, "END:VEVENT"@, im);
    lemma_head_not_prefix(head, tail, "END:VTODO"@, im);
    lemma_head_not_prefix(head, tail, "UID"@, iu);
    lemma_head_not_prefix(head, tail, "DTSTART"@, is);
    lemma_head_not_prefix(head, tail, "DTEND"@, ie);
    lemma_head_not_prefix(head, tail, "DUE"@, id);
    lemma_head_not_prefix(head, tail, "SUMMARY"@, ism);
    lemma_step_inside(st, head + tail);
}

/// Lines that each leave a state unchanged leave it unchanged together.
proof fn lemma_run_fixed(st: (IcalFieldsView, bool), lines: Seq<Seq<char>>)
    requires
        forall|i: int| 0 <= i < lines.len() ==> step(st, #[trigger] lines[i]) == st,
    ensures
        run(st, lines) == st,
    decreases lines.len(),
{
    if lines.len() > 0 {
        let d = lines.drop_last();
        assert forall|i: int| 0 <= i < d.len() implies step(st, #[trigger] d[i]) == st by {
            assert(d[i] == lines[i]);
        }
        lemma_run_fixed(st, d);
        assert(step(st, lines[lines.len() - 1]) == st);
    }
}

/// The calendar header changes nothing.
proof fn lemma_header(st: (IcalFieldsView, bool))
    requires
        !st.1,
    ensures
        run(st, seq!["BEGIN:VCALENDAR"@, "VERSION:2.0"@, "PRODID:-//CalDAV Server//EN"@]) == st,
{
    reveal_strlit("BEGIN:VCALENDAR");
    reveal_strlit("VERSION:2.0");
    reveal_strlit("PRODID:-//CalDAV Server//EN");
    reveal_strlit("BEGIN:VEVENT");
    reveal_strlit("BEGIN:VTODO");
    reveal_strlit("END:VEVENT");
    reveal_strlit("END:VTODO");
    reveal_strlit("UID");
    let h = seq!["BEGIN:VCALENDAR"@, "VERSION:2.0"@, "PRODID:-//CalDAV Server//EN"@];
    lemma_outside_literal(st, "BEGIN:VCALENDAR"@, 7, 7, 0, 0, 0);
    lemma_outside_literal(st, "VERSION:2.0"@, 0, 0, 0, 0, 0);
    lemma_outside_literal(st, "PRODID:-//CalDAV Server//EN"@, 0, 0, 0, 0, 0);
    assert forall|i: int| 0 <= i < h.len() implies step(st, #[trigger] h[i]) == st by {}
    lemma_run_fixed(st, h);
}


/// The time zone component changes nothing.
proof fn lemma_timezone(st: (IcalFieldsView, bool), tz: Seq<char>)
    requires
        !st.1,
    ensures
        run(st, vtimezone_lines(tz)) == st,
{
    reveal_strlit("BEGIN:VTIMEZONE");
    reveal_strlit("TZID:");
    reveal_strlit("BEGIN:STANDARD");
    reveal_strlit("DTSTART:19671029T020000");
    reveal_strlit("RRULE:FREQ=YEARLY;BYDAY=1SU;BYMONTH=11");
    reveal_strlit("TZOFFSETFROM:");
    reveal_strlit("TZOFFSETTO:");
    reveal_strlit("END:STANDARD");
    reveal_strlit("BEGIN:DAYLIGHT");
    reveal_strlit("DTSTART:20070311T020000");
    reveal_strlit("RRULE:FREQ=YEARLY;BYDAY=2SU;BYMONTH=3");
    reveal_strlit("END:DAYLIGHT");
    reveal_strlit("END:VTIMEZONE");
    reveal_strlit("BEGIN:VEVENT");
    reveal_strlit("BEGIN:VTODO");
    reveal_strlit("END:VEVENT");
    reveal_strlit("END:VTODO");
    reveal_strlit("UID");
    let l = vtimezone_lines(tz);
    lemma_outside_literal(st, "BEGIN:VTIMEZONE"@, 7, 8, 0, 0, 0);
    lemma_outside(st, "TZID:"@, tz, 0, 0, 0, 0, 0);
    lemma_outside_literal(st, "BEGIN:STANDARD"@, 6, 6, 0, 0, 0);
    lemma_outside_literal(st, "DTSTART:19671029T020000"@, 0, 0, 0, 0, 0);
    lemma_outside_literal(st, "RRULE:FREQ=YEARLY;BYDAY=1SU;BYMONTH=11"@, 0, 0, 0, 0, 0);
    lemma_outside(st, "TZOFFSETFROM:"@, std_offset(tz), 0, 0, 0, 0, 0);
    lemma_outside(st, "TZOFFSETTO:"@, dst_offset(tz), 0, 0, 0, 0, 0);
    lemma_outside_literal(st, "END:STANDARD"@, 0, 0, 4, 4, 0);
    lemma_outside_literal(st, "BEGIN:DAYLIGHT"@, 6, 6, 0, 0, 0);
    lemma_outside_literal(st, "DTSTART:20070311T020000"@, 0, 0, 0, 0, 0);
    lemma_outside_literal(st, "RRULE:FREQ=YEARLY;BYDAY=2SU;BYMONTH=3"@, 0, 0, 0, 0, 0);
    lemma_outside_literal(st, "END:DAYLIGHT"@, 0, 0, 4, 4, 0);
    lemma_outside_literal(st, "END:VTIMEZONE"@, 0, 0, 5, 6, 0);
    assert forall|i: int| 0 <= i < l.len() implies step(st, #[trigger] l[i]) == st by {}
    lemma_run_fixed(st, l);
}

/// The value ends in a character that is not blank (or is empty).
pub open spec fn ends_solid(v: Seq<char>) -> bool {
    v.len() == 0 || !is_ws(v.last())
}

proof fn lemma_run_one(st: (IcalFieldsView, bool), line: Seq<char>)
    ensures
        run(st, seq![line]) == step(st, line),
{
    assert(seq![line].drop_last() =~= Seq::<Seq<char>>::empty());
    assert(run(st, Seq::<Seq<char>>::empty()) == st);
    assert(seq![line].last() == line);
    assert(run(st, seq![line]) == step(run(st, seq![line].drop_last()), seq![line].last()));
}

/// `BEGIN:VEVENT` opens an event component.
proof fn lemma_begin_event(f: IcalFieldsView)
    ensures
        step((f, false), "BEGIN:VEVENT"@) == (IcalFieldsView { component_type: "VEVENT"@, ..f }, true),
{
    reveal_strlit("BEGIN:VEVENT");
    reveal_strlit("UID");
    reveal_strlit("DTSTART");
    reveal_strlit("DTEND");
    reveal_strlit("DUE");
    reveal_strlit("SUMMARY");
    let m = "BEGIN:VEVENT"@;
    lemma_trim_head(m, Seq::<char>::empty());
    assert(m + Seq::<char>::empty() =~= m);
    assert(m.take(m.len() as int) =~= m);
    lemma_not_prefix(m, "UID"@, 0);
    lemma_not_prefix(m, "DTSTART"@, 0);
    lemma_not_prefix(m, "DTEND"@, 0);
    lemma_not_prefix(m, "DUE"@, 0);
    lemma_not_prefix(m, "SUMMARY"@, 0);
}

/// `END:VEVENT` closes the component.
proof fn lemma_end_event(f: IcalFieldsView)
    ensures
        step((f, true), "END:VEVENT"@) == (f, false),
{
    reveal_strlit("BEGIN:VEVENT");
    reveal_strlit("BEGIN:VTODO");
    reveal_strlit("END:VEVENT");
    reveal_strlit("UID");
    let m = "END:VEVENT"@;
    lemma_trim_head(m, Seq::<char>::empty());
    assert(m + Seq::<char>::empty() =~= m);
    assert(m.take(m.len() as int) =~= m);
    lemma_not_prefix(m, "BEGIN:VEVENT"@, 0);
    lemma_not_prefix(m, "BEGIN:VTODO"@, 0);
    lemma_not_prefix(m, "UID"@, 0);
}

/// The UID line sets the UID.
proof fn lemma_uid_line(f: IcalFieldsView, uid: Seq<char>)
    requires
        ends_solid(uid),
    ensures
        step((f, true), "UID:"@ + uid) == (IcalFieldsView { uid: Some(uid), ..f }, true),
{
    reveal_strlit("UID:");
    reveal_strlit("UID");
    reveal_strlit("BEGIN:VEVENT");
    reveal_strlit("BEGIN:VTODO");
    reveal_strlit("END:VEVENT");
    reveal_strlit("END:VTODO");
    let h = "UID:"@;
    lemma_trim_head(h, uid);
    lemma_head_not_prefix(h, uid, "BEGIN:VEVENT"@, 0);
    lemma_head_not_prefix(h, uid, "BEGIN:VTODO"@, 0);
    lemma_head_not_prefix(h, uid, "END:VEVENT"@, 0);
    lemma_head_not_prefix(h, uid, "END:VTODO"@, 0);
    assert(h =~= "UID"@.push(':'));
    lemma_extract_colon(h, "UID"@, uid);
}

/// The DTSTAMP line changes nothing.
proof fn lemma_stamp_line(f: IcalFieldsView, stamp: Seq<char>)
    ensures
        step((f, true), "DTSTAMP:"@ + stamp) == (f, true),
{
    reveal_strlit("DTSTAMP:");
    reveal_strlit("BEGIN:VEVENT");
    reveal_strlit("BEGIN:VTODO");
    reveal_strlit("END:VEVENT");
    reveal_strlit("END:VTODO");
    reveal_strlit("UID");
    reveal_strlit("DTSTART");
    reveal_strlit("DTEND");
    reveal_strlit("DUE");
    reveal_strlit("SUMMARY");
    lemma_inside((f, true), "DTSTAMP:"@, stamp, 0, 0, 5, 2, 1, 0);
}

/// The start line sets the start.
proof fn lemma_start_line(f: IcalFieldsView, tz: Option<Seq<char>>, dtstart: Seq<char>)
    requires
        ends_solid(dtstart),
        tz matches Some(z) ==> !z.contains(':'),
    ensures
        step(
            (f, true),
            match tz {
                Some(z) => "DTSTART;TZID="@ + z + ":"@ + dtstart,
                None => "DTSTART:"@ + dtstart,
            },
        ) == (IcalFieldsView { dtstart: Some(dtstart), ..f }, true),
{
    reveal_strlit("DTSTART;TZID=");
    reveal_strlit("DTSTART:");
    reveal_strlit(":");
    reveal_strlit(";TZID=");
    reveal_strlit("DTSTART");
    reveal_strlit("UID");
    reveal_strlit("BEGIN:VEVENT");
    reveal_strlit("BEGIN:VTODO");
    reveal_strlit("END:VEVENT");
    reveal_strlit("END:VTODO");
    match tz {
        Some(z) => {
            let h = "DTSTART;TZID="@;
            let tail = z + ":"@ + dtstart;
            assert(h + tail =~= "DTSTART;TZID="@ + z + ":"@ + dtstart);
            assert(ends_solid(tail)) by {
                if dtstart.len() == 0 {
                    assert(tail.last() == ':');
                } else {
                    assert(tail.last() == dtstart.last());
                }
            }
            lemma_trim_head(h, tail);
            lemma_head_not_prefix(h, tail, "BEGIN:VEVENT"@, 0);
            lemma_head_not_prefix(h, tail, "BEGIN:VTODO"@, 0);
            lemma_head_not_prefix(h, tail, "END:VEVENT"@, 0);
            lemma_head_not_prefix(h, tail, "END:VTODO"@, 0);
            lemma_head_not_prefix(h, tail, "UID"@, 0);
            assert(h =~= "DTSTART"@ + ";TZID="@);
            assert(!";TZID="@.contains(':')) by {
                if ";TZID="@.contains(':') {
                    let j = choose|j: int| 0 <= j < ";TZID="@.len() && ";TZID="@[j] == ':';
                }
            }
            lemma_extract_param(h, "DTSTART"@, ";TZID="@, z, dtstart);
        },
        None => {
            let h = "DTSTART:"@;
            lemma_trim_head(h, dtstart);
            lemma_head_not_prefix(h, dtstart, "BEGIN:VEVENT"@, 0);
            lemma_head_not_prefix(h, dtstart, "BEGIN:VTODO"@, 0);
            lemma_head_not_prefix(h, dtstart, "END:VEVENT"@, 0);
            lemma_head_not_prefix(h, dtstart, "END:VTODO"@, 0);
            lemma_head_not_prefix(h, dtstart, "UID"@, 0);
            assert(h =~= "DTSTART"@.push(':'));
            lemma_extract_colon(h, "DTSTART"@, dtstart);
        },
    }
}


/// The end line sets the end.
proof fn lemma_end_line(f: IcalFieldsView, tz: Option<Seq<char>>, dtend: Seq<char>)
    requires
        ends_solid(dtend),
        tz matches Some(z) ==> !z.contains(':'),
    ensures
        step(
            (f, true),
            match tz {
                Some(z) => "DTEND;TZID="@ + z + ":"@ + dtend,
                None => "DTEND:"@ + dtend,
            },
        ) == (IcalFieldsView { dtend: Some(dtend), ..f }, true),
{
    reveal_strlit("DTEND;TZID=");
    reveal_strlit("DTEND:");
    reveal_strlit(":");
    reveal_strlit(";TZID=");
    reveal_strlit("DTEND");
    reveal_strlit("DTSTART");
    reveal_strlit("UID");
    reveal_strlit("BEGIN:VEVENT");
    reveal_strlit("BEGIN:VTODO");
    reveal_strlit("END:VEVENT");
    reveal_strlit("END:VTODO");
    match tz {
        Some(z) => {
            let h = "DTEND;TZID="@;
            let tail = z + ":"@ + dtend;
            assert(h + tail =~= "DTEND;TZID="@ + z + ":"@ + dtend);
            assert(ends_solid(tail)) by {
                if dtend.len() == 0 {
                    assert(tail.last() == ':');
                } else {
                    assert(tail.last() == dtend.last());
                }
            }
            lemma_trim_head(h, tail);
            lemma_head_not_prefix(h, tail, "BEGIN:VEVENT"@, 0);
            lemma_head_not_prefix(h, tail, "BEGIN:VTODO"@, 0);
            lemma_head_not_prefix(h, tail, "END:VEVENT"@, 0);
            lemma_head_not_prefix(h, tail, "END:VTODO"@, 0);
            lemma_head_not_prefix(h, tail, "UID"@, 0);
            lemma_head_not_prefix(h, tail, "DTSTART"@, 2);
            assert(h =~= "DTEND"@ + ";TZID="@);
            assert(!";TZID="@.contains(':')) by {
                if ";TZID="@.contains(':') {
                    let j = choose|j: int| 0 <= j < ";TZID="@.len() && ";TZID="@[j] == ':';
                }
            }
            lemma_extract_param(h, "DTEND"@, ";TZID="@, z, dtend);
        },
        None => {
            let h = "DTEND:"@;
            lemma_trim_head(h, dtend);
            lemma_head_not_prefix(h, dtend, "BEGIN:VEVENT"@, 0);
            lemma_head_not_prefix(h, dtend, "BEGIN:VTODO"@, 0);
            lemma_head_not_prefix(h, dtend, "END:VEVENT"@, 0);
            lemma_head_not_prefix(h, dtend, "END:VTODO"@, 0);
            lemma_head_not_prefix(h, dtend, "UID"@, 0);
            lemma_head_not_prefix(h, dtend, "DTSTART"@, 2);
            assert(h =~= "DTEND"@.push(':'));
            lemma_extract_colon(h, "DTEND"@, dtend);
        },
    }
}

/// The summary line sets the summary.
proof fn lemma_summary_line(f: IcalFieldsView, summary: Seq<char>)
    requires
        ends_solid(summary),
    ensures
        step((f, true), "SUMMARY:"@ + summary) == (IcalFieldsView { summary: Some(summary), ..f }, true),
{
    reveal_strlit("SUMMARY:");
    reveal_strlit("SUMMARY");
    reveal_strlit("UID");
    reveal_strlit("DTSTART");
    reveal_strlit("DTEND");
    reveal_strlit("DUE");
    reveal_strlit("BEGIN:VEVENT");
    reveal_strlit("BEGIN:VTODO");
    reveal_strlit("END:VEVENT");
    reveal_strlit("END:VTODO");
    let h = "SUMMARY:"@;
    lemma_trim_head(h, summary);
    lemma_head_not_prefix(h, summary, "BEGIN:VEVENT"@, 0);
    lemma_head_not_prefix(h, summary, "BEGIN:VTODO"@, 0);
    lemma_head_not_prefix(h, summary, "END:VEVENT"@, 0);
    lemma_head_not_prefix(h, summary, "END:VTODO"@, 0);
    lemma_head_not_prefix(h, summary, "UID"@, 0);
    lemma_head_not_prefix(h, summary, "DTSTART"@, 0);
    lemma_head_not_prefix(h, summary, "DTEND"@, 0);
    lemma_head_not_prefix(h, summary, "DUE"@, 0);
    assert(h =~= "SUMMARY"@.push(':'));
    lemma_extract_colon(h, "SUMMARY"@, summary);
}

/// The description and location lines change nothing.
proof fn lemma_note_lines(f: IcalFieldsView, d: Seq<char>, l: Seq<char>)
    ensures
        step((f, true), "DESCRIPTION:"@ + d) == (f, true),
        step((f, true), "LOCATION:"@ + l) == (f, true),
{
    reveal_strlit("DESCRIPTION:");
    reveal_strlit("LOCATION:");
    reveal_strlit("BEGIN:VEVENT");
    reveal_strlit("BEGIN:VTODO");
    reveal_strlit("END:VEVENT");
    reveal_strlit("END:VTODO");
    reveal_strlit("UID");
    reveal_strlit("DTSTART");
    reveal_strlit("DTEND");
    reveal_strlit("DUE");
    reveal_strlit("SUMMARY");
    lemma_inside((f, true), "DESCRIPTION:"@, d, 0, 0, 1, 1, 1, 0);
    lemma_inside((f, true), "LOCATION:"@, l, 0, 0, 0, 0, 0, 0);
}

/// The closing calendar line changes nothing.
proof fn lemma_end_calendar(f: IcalFieldsView)
    ensures
        step((f, false), "END:VCALENDAR"@) == (f, false),
{
    reveal_strlit("END:VCALENDAR");
    reveal_strlit("BEGIN:VEVENT");
    reveal_strlit("BEGIN:VTODO");
    reveal_strlit("END:VEVENT");
    reveal_strlit("END:VTODO");
    reveal_strlit("UID");
    lemma_outside_literal((f, false), "END:VCALENDAR"@, 0, 0, 5, 5, 0);
}


/// A line that no line feed splits and that unfolding keeps apart.
pub open spec fn good(l: Seq<char>) -> bool {
    no_lf(l) && plain_line(l)
}

proof fn lemma_good_line(head: Seq<char>, tail: Seq<char>)
    requires
        head.len() > 0,
        !is_ws(head[0]),
        no_lf(head),
        no_lf(tail),
    ensures
        good(head + tail),
{
    let x = head + tail;
    assert(x[0] == head[0]);
    assert forall|i: int| 0 <= i < x.len() implies x[i] != '\n' by {
        if i < head.len() {
            assert(x[i] == head[i]);
        } else {
            assert(x[i] == tail[i - head.len()]);
        }
    }
}

proof fn lemma_good_concat(a: Seq<Seq<char>>, b: Seq<Seq<char>>)
    requires
        forall|i: int| 0 <= i < a.len() ==> good(#[trigger] a[i]),
        forall|i: int| 0 <= i < b.len() ==> good(#[trigger] b[i]),
    ensures
        forall|i: int| 0 <= i < (a + b).len() ==> good(#[trigger] (a + b)[i]),
{
    assert forall|i: int| 0 <= i < (a + b).len() implies good(#[trigger] (a + b)[i]) by {
        if i < a.len() {
            assert((a + b)[i] == a[i]);
        } else {
            assert((a + b)[i] == b[i - a.len()]);
        }
    }
}

proof fn lemma_offsets_no_lf(tz: Seq<char>)
    ensures
        no_lf(std_offset(tz)),
        no_lf(dst_offset(tz)),
{
    reveal_strlit("-0800");
    reveal_strlit("-0700");
    reveal_strlit("-0600");
    reveal_strlit("-0500");
    reveal_strlit("-0400");
    reveal_strlit("+0000");
    reveal_strlit("+0100");
    reveal_strlit("+0200");
    reveal_strlit("+0900");
    reveal_strlit("+1100");
}

proof fn lemma_timezone_good(tz: Seq<char>)
    requires
        no_lf(tz),
    ensures
        forall|i: int| 0 <= i < vtimezone_lines(tz).len() ==> good(#[trigger] vtimezone_lines(tz)[i]),
{
    reveal_strlit("BEGIN:VTIMEZONE");
    reveal_strlit("TZID:");
    reveal_strlit("BEGIN:STANDARD");
    reveal_strlit("DTSTART:19671029T020000");
    reveal_strlit("RRULE:FREQ=YEARLY;BYDAY=1SU;BYMONTH=11");
    reveal_strlit("TZOFFSETFROM:");
    reveal_strlit("TZOFFSETTO:");
    reveal_strlit("END:STANDARD");
    reveal_strlit("BEGIN:DAYLIGHT");
    reveal_strlit("DTSTART:20070311T020000");
    reveal_strlit("RRULE:FREQ=YEARLY;BYDAY=2SU;BYMONTH=3");
    reveal_strlit("END:DAYLIGHT");
    reveal_strlit("END:VTIMEZONE");
    lemma_offsets_no_lf(tz);
    lemma_good_line("TZID:"@, tz);
    lemma_good_line("TZOFFSETFROM:"@, std_offset(tz));
    lemma_good_line("TZOFFSETTO:"@, dst_offset(tz));
    let l = vtimezone_lines(tz);
    assert forall|i: int| 0 <= i < l.len() implies good(#[trigger] l[i]) by {}
}

/// The inputs the builder writes on one line each, as the parser reads
/// them back: no line feed anywhere, no `:` in the time zone, and the four
/// extracted values not ending in a blank.
pub open spec fn readable_inputs(
    uid: Seq<char>,
    summary: Seq<char>,
    dtstart: Seq<char>,
    dtend: Seq<char>,
    description: Option<Seq<char>>,
    location: Option<Seq<char>>,
    timezone: Option<Seq<char>>,
    stamp: Seq<char>,
) -> bool {
    &&& no_lf(uid) && ends_solid(uid)
    &&& no_lf(summary) && ends_solid(summary)
    &&& no_lf(dtstart) && ends_solid(dtstart)
    &&& no_lf(dtend) && ends_solid(dtend)
    &&& no_lf(stamp)
    &&& (description matches Some(d) ==> no_lf(d))
    &&& (location matches Some(l) ==> no_lf(l))
    &&& (timezone matches Some(z) ==> no_lf(z) && !z.contains(':'))
}

proof fn lemma_run_two(st: (IcalFieldsView, bool), a: Seq<char>, b: Seq<char>)
    ensures
        run(st, seq![a, b]) == step(step(st, a), b),
{
    lemma_run_concat(st, seq![a], seq![b]);
    assert(seq![a] + seq![b] =~= seq![a, b]);
    lemma_run_one(st, a);
    lemma_run_one(step(st, a), b);
}

proof fn lemma_run_three(st: (IcalFieldsView, bool), a: Seq<char>, b: Seq<char>, c: Seq<char>)
    ensures
        run(st, seq![a, b, c]) == step(step(step(st, a), b), c),
{
    lemma_run_concat(st, seq![a, b], seq![c]);
    assert(seq![a, b] + seq![c] =~= seq![a, b, c]);
    lemma_run_two(st, a, b);
    lemma_run_one(step(step(st, a), b), c);
}


/// An event the builder writes reads back with the fields it was built
/// from: its UID, start, end and summary, as a VEVENT — whatever the
/// description, location, time zone and stamp, as long as no value holds a
/// line feed, the time zone holds no `:`, and the four read-back values do
/// not end in a blank (the reader trims lines).
pub proof fn lemma_built_event_reads_back(
    uid: Seq<char>,
    summary: Seq<char>,
    dtstart: Seq<char>,
    dtend: Seq<char>,
    description: Option<Seq<char>>,
    location: Option<Seq<char>>,
    timezone: Option<Seq<char>>,
    stamp: Seq<char>,
)
    requires
        readable_inputs(uid, summary, dtstart, dtend, description, location, timezone, stamp),
    ensures
        spec_extract_fields(
            crlf_join(vevent_lines(uid, summary, dtstart, dtend, description, location, timezone, stamp)),
        ) == (IcalFieldsView {
            uid: Some(uid),
            dtstart: Some(dtstart),
            dtend: Some(dtend),
            summary: Some(summary),
            component_type: "VEVENT"@,
        }),
{
    reveal_strlit("BEGIN:VCALENDAR");
    reveal_strlit("VERSION:2.0");
    reveal_strlit("PRODID:-//CalDAV Server//EN");
    reveal_strlit("BEGIN:VEVENT");
    reveal_strlit("UID:");
    reveal_strlit("DTSTAMP:");
    reveal_strlit("DTSTART;TZID=");
    reveal_strlit("DTEND;TZID=");
    reveal_strlit("DTSTART:");
    reveal_strlit("DTEND:");
    reveal_strlit(":");
    reveal_strlit("SUMMARY:");
    reveal_strlit("DESCRIPTION:");
    reveal_strlit("LOCATION:");
    reveal_strlit("END:VEVENT");
    reveal_strlit("END:VCALENDAR");
    let lines = vevent_lines(uid, summary, dtstart, dtend, description, location, timezone, stamp);
    let h = seq!["BEGIN:VCALENDAR"@, "VERSION:2.0"@, "PRODID:-//CalDAV Server//EN"@];
    let tzl: Seq<Seq<char>> = match timezone {
        Some(z) => vtimezone_lines(z),
        None => seq![],
    };
    let v = seq!["BEGIN:VEVENT"@, "UID:"@ + uid, "DTSTAMP:"@ + stamp];
    let start_line = match timezone {
        Some(z) => "DTSTART;TZID="@ + z + ":"@ + dtstart,
        None => "DTSTART:"@ + dtstart,
    };
    let end_line = match timezone {
        Some(z) => "DTEND;TZID="@ + z + ":"@ + dtend,
        None => "DTEND:"@ + dtend,
    };
    let t = seq![start_line, end_line];
    let sm = seq!["SUMMARY:"@ + summary];
    let d: Seq<Seq<char>> = match description {
        Some(x) => seq!["DESCRIPTION:"@ + x],
        None => seq![],
    };
    let lo: Seq<Seq<char>> = match location {
        Some(x) => seq!["LOCATION:"@ + x],
        None => seq![],
    };
    let e = seq!["END:VEVENT"@, "END:VCALENDAR"@];
    assert(lines =~= h + tzl + v + t + sm + d + lo + e);

    // Every line survives splitting and unfolding as it is.
    assert forall|i: int| 0 <= i < h.len() implies good(#[trigger] h[i]) by {}
    match timezone {
        Some(z) => lemma_timezone_good(z),
        None => {},
    }
    lemma_good_line("UID:"@, uid);
    lemma_good_line("DTSTAMP:"@, stamp);
    match timezone {
        Some(z) => {
            lemma_good_line("DTSTART;TZID="@, z + ":"@ + dtstart);
            lemma_good_line("DTEND;TZID="@, z + ":"@ + dtend);
            assert(no_lf(z + ":"@ + dtstart)) by {
                assert forall|i: int| 0 <= i < (z + ":"@ + dtstart).len() implies (z + ":"@
                    + dtstart)[i] != '\n' by {
                    if i < z.len() {
                        assert((z + ":"@ + dtstart)[i] == z[i]);
                    } else if i == z.len() {
                    } else {
                        assert((z + ":"@ + dtstart)[i] == dtstart[i - z.len() - 1]);
                    }
                }
            }
            assert(no_lf(z + ":"@ + dtend)) by {
                assert forall|i: int| 0 <= i < (z + ":"@ + dtend).len() implies (z + ":"@
                    + dtend)[i] != '\n' by {
                    if i < z.len() {
                        assert((z + ":"@ + dtend)[i] == z[i]);
                    } else if i == z.len() {
                    } else {
                        assert((z + ":"@ + dtend)[i] == dtend[i - z.len() - 1]);
                    }
                }
            }
            assert("DTSTART;TZID="@ + (z + ":"@ + dtstart) =~= start_line);
            assert("DTEND;TZID="@ + (z + ":"@ + dtend) =~= end_line);
        },
        None => {
            lemma_good_line("DTSTART:"@, dtstart);
            lemma_good_line("DTEND:"@, dtend);
        },
    }
    lemma_good_line("SUMMARY:"@, summary);
    match description {
        Some(x) => lemma_good_line("DESCRIPTION:"@, x),
        None => {},
    }
    match location {
        Some(x) => lemma_good_line("LOCATION:"@, x),
        None => {},
    }
    assert forall|i: int| 0 <= i < v.len() implies good(#[trigger] v[i]) by {}
    assert forall|i: int| 0 <= i < t.len() implies good(#[trigger] t[i]) by {}
    assert forall|i: int| 0 <= i < sm.len() implies good(#[trigger] sm[i]) by {}
    assert forall|i: int| 0 <= i < d.len() implies good(#[trigger] d[i]) by {}
    assert forall|i: int| 0 <= i < lo.len() implies good(#[trigger] lo[i]) by {}
    assert forall|i: int| 0 <= i < e.len() implies good(#[trigger] e[i]) by {}
    lemma_good_concat(h, tzl);
    lemma_good_concat(h + tzl, v);
    lemma_good_concat(h + tzl + v, t);
    lemma_good_concat(h + tzl + v + t, sm);
    lemma_good_concat(h + tzl + v + t + sm, d);
    lemma_good_concat(h + tzl + v + t + sm + d, lo);
    lemma_good_concat(h + tzl + v + t + sm + d + lo, e);
    assert forall|i: int| 0 <= i < lines.len() implies no_lf(#[trigger] lines[i]) && plain_line(lines[i]) by {
        assert(good(lines[i]));
    }
    lemma_unfold_crlf(lines);
    lemma_extract_is_run(without_crs(lines));
    lemma_run_without_crs((initial_fields(), false), lines);

    // The lines, segment by segment.
    let s0 = (initial_fields(), false);
    lemma_run_concat(s0, h + tzl + v + t + sm + d + lo, e);
    lemma_run_concat(s0, h + tzl + v + t + sm + d, lo);
    lemma_run_concat(s0, h + tzl + v + t + sm, d);
    lemma_run_concat(s0, h + tzl + v + t, sm);
    lemma_run_concat(s0, h + tzl + v, t);
    lemma_run_concat(s0, h + tzl, v);
    lemma_run_concat(s0, h, tzl);
    lemma_header(s0);
    match timezone {
        Some(z) => lemma_timezone(s0, z),
        None => {},
    }
    assert(run(s0, h + tzl) == s0);
    let f0 = initial_fields();
    lemma_begin_event(f0);
    assert(IcalFieldsView { component_type: "VEVENT"@, ..f0 } == f0);
    lemma_uid_line(f0, uid);
    let f1 = IcalFieldsView { uid: Some(uid), ..f0 };
    lemma_stamp_line(f1, stamp);
    lemma_run_three(s0, "BEGIN:VEVENT"@, "UID:"@ + uid, "DTSTAMP:"@ + stamp);
    assert(run(s0, h + tzl + v) == (f1, true));
    lemma_start_line(f1, timezone, dtstart);
    let f2 = IcalFieldsView { dtstart: Some(dtstart), ..f1 };
    lemma_end_line(f2, timezone, dtend);
    let f3 = IcalFieldsView { dtend: Some(dtend), ..f2 };
    lemma_run_two((f1, true), start_line, end_line);
    assert(run(s0, h + tzl + v + t) == (f3, true));
    lemma_summary_line(f3, summary);
    let f4 = IcalFieldsView { summary: Some(summary), ..f3 };
    lemma_run_one((f3, true), "SUMMARY:"@ + summary);
    assert(run(s0, h + tzl + v + t + sm) == (f4, true));
    match description {
        Some(x) => {
            lemma_note_lines(f4, x, x);
            lemma_run_one((f4, true), "DESCRIPTION:"@ + x);
        },
        None => {},
    }
    assert(run(s0, h + tzl + v + t + sm + d) == (f4, true));
    match location {
        Some(x) => {
            lemma_note_lines(f4, x, x);
            lemma_run_one((f4, true), "LOCATION:"@ + x);
        },
        None => {},
    }
    assert(run(s0, h + tzl + v + t + sm + d + lo) == (f4, true));
    lemma_end_event(f4);
    lemma_end_calendar(f4);
    lemma_run_two((f4, true), "END:VEVENT"@, "END:VCALENDAR"@);
    assert(run(s0, lines) == (f4, false));
}

} // verus!
