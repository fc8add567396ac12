//! Line-based extraction of the indexed fields of raw iCalendar data.
use vstd::prelude::*;

use crate::text::{
    chars_eq, has_prefix, starts_with, trim, trim_bounds, chars_of, copy_range, find_char, first_index_of, lemma_first_index_of,
    lemma_first_index_of_unique, string_from_chars, string_views, views,
};

verus! {

/// Extracted fields from iCalendar data.
#[derive(Debug, Clone)]
pub struct IcalFields {
    pub uid: Option<String>,
    pub dtstart: Option<String>,
    pub dtend: Option<String>,
    pub summary: Option<String>,
    pub component_type: String,
}

/// The value of an `IcalFields` as sequences of characters.
pub struct IcalFieldsView {
    pub uid: Option<Seq<char>>,
    pub dtstart: Option<Seq<char>>,
    pub dtend: Option<Seq<char>>,
    pub summary: Option<Seq<char>>,
    pub component_type: Seq<char>,
}

/// The view of an optional string.
pub open spec fn opt_view(o: Option<String>) -> Option<Seq<char>> {
    match o {
        Some(s) => Some(s@),
        None => None,
    }
}

impl View for IcalFields {
    type V = IcalFieldsView;

    open spec fn view(&self) -> IcalFieldsView {
        IcalFieldsView {
            uid: opt_view(self.uid),
            dtstart: opt_view(self.dtstart),
            dtend: opt_view(self.dtend),
            summary: opt_view(self.summary),
            component_type: self.component_type@,
        }
    }
}

// ---------------------------------------------------------------------------
// Line splitting (`str::lines`) and unfolding (RFC 5545 section 3.1)
// ---------------------------------------------------------------------------

/// A piece that ended at a `\n`, without one `\r` before that `\n`.
pub open spec fn strip_cr(piece: Seq<char>) -> Seq<char> {
    if piece.len() > 0 && piece.last() == '\r' {
        piece.drop_last()
    } else {
        piece
    }
}

/// The lines of `s` as `str::lines` yields them: split after each `\n`,
/// the `\n` (and a `\r` right before it) removed, no empty final line.
pub open spec fn spec_lines(s: Seq<char>) -> Seq<Seq<char>>
    decreases s.len(),
{
    if s.len() == 0 {
        seq![]
    } else {
        let k = first_index_of(s, '\n');
        if k < 0 || k >= s.len() {
            seq![s]
        } else {
            seq![strip_cr(s.take(k))] + spec_lines(s.skip(k + 1))
        }
    }
}

/// `s` without all of its trailing `\r` characters.
pub open spec fn trim_end_cr(s: Seq<char>) -> Seq<char>
    decreases s.len(),
{
    if s.len() > 0 && s.last() == '\r' {
        trim_end_cr(s.drop_last())
    } else {
        s
    }
}

/// A folded continuation line starts with a space or a tab.
pub open spec fn is_continuation(line: Seq<char>) -> bool {
    line.len() > 0 && (line[0] == ' ' || line[0] == '\t')
}

/// The finished lines and the line being built after unfolding `lines`.
pub open spec fn unfold_state(lines: Seq<Seq<char>>) -> (Seq<Seq<char>>, Seq<char>)
    decreases lines.len(),
{
    if lines.len() == 0 {
        (seq![], seq![])
    } else {
        let prev = unfold_state(lines.drop_last());
        let line = trim_end_cr(lines.last());
        if is_continuation(line) {
            (prev.0, prev.1 + line.drop_first())
        } else if prev.1.len() > 0 {
            (prev.0.push(prev.1), line)
        } else {
            (prev.0, line)
        }
    }
}

/// The unfolded lines of `data`: each continuation line is appended,
/// without its leading blank, to the line before it; empty lines vanish.
pub open spec fn spec_unfold_lines(data: Seq<char>) -> Seq<Seq<char>> {
    let st = unfold_state(spec_lines(data));
    if st.1.len() > 0 {
        st.0.push(st.1)
    } else {
        st.0
    }
}

proof fn lemma_spec_lines_step(s: Seq<char>, st: int, k: int)
    requires
        0 <= st <= k <= s.len(),
        st < s.len(),
        forall|j: int| st <= j < k ==> s[j] != '\n',
        k < s.len() ==> s[k] == '\n',
    ensures
        k < s.len() ==> spec_lines(s.skip(st)) == seq![strip_cr(s.subrange(st, k))]
            + spec_lines(s.skip(k + 1)),
        k == s.len() ==> spec_lines(s.skip(st)) == seq![s.skip(st)],
{
    let t = s.skip(st);
    assert forall|j: int| 0 <= j < k - st implies t[j] != '\n' by {
        assert(t[j] == s[st + j]);
    }
    if k < s.len() {
        assert(t[k - st] == s[k]);
    }
    lemma_first_index_of_unique(t, '\n', k - st);
    assert(t.take(k - st) =~= s.subrange(st, k));
    if k < s.len() {
        assert(t.skip(k - st + 1) =~= s.skip(k + 1));
    }
}

/// Splits `data` into lines as `str::lines` does.
pub fn split_lines(data: &[char]) -> (out: Vec<Vec<char>>)
    ensures
        views(out@) == spec_lines(data@),
{
    let mut out: Vec<Vec<char>> = Vec::new();
    let mut st: usize = 0;
    let n = data.len();
    assert(data@.skip(0) =~= data@);
    while st < n
        invariant
            n == data@.len(),
            st <= n,
            spec_lines(data@) == views(out@) + spec_lines(data@.skip(st as int)),
        decreases n - st,
    {
        let k = find_char(data, st, '\n');
        proof {
            lemma_first_index_of(data@.skip(st as int), '\n');
            assert forall|j: int| st <= j < k implies data@[j] != '\n' by {
                assert(data@[j] == data@.skip(st as int)[j - st]);
            }
            if k < n {
                assert(data@[k as int] == data@.skip(st as int)[k - st]);
            }
            lemma_spec_lines_step(data@, st as int, k as int);
        }
        let ghost old_out = out@;
        if k == n {
            let piece = copy_range(data, st, n);
            assert(piece@ =~= data@.skip(st as int));
            out.push(piece);
            st = n;
        } else {
            let end = if k > st && data[k - 1] == '\r' {
                k - 1
            } else {
                k
            };
            let piece = copy_range(data, st, end);
            assert(piece@ == strip_cr(data@.subrange(st as int, k as int))) by {
                if k > st && data@[k - 1] == '\r' {
                    assert(data@.subrange(st as int, k as int).drop_last() =~= data@.subrange(
                        st as int,
                        k - 1,
                    ));
                }
            }
            out.push(piece);
            st = k + 1;
        }
        assert(views(out@) =~= views(old_out).push(out@.last()@));
        assert(data@.skip(n as int).len() == 0);
    }
    assert(spec_lines(data@.skip(n as int)) =~= seq![]) by {
        assert(data@.skip(n as int).len() == 0);
    }
    assert(views(out@) + seq![] =~= views(out@));
    out
}

/// The line without all trailing `\r` characters.
fn trim_end_cr_exec(line: &Vec<char>) -> (r: Vec<char>)
    ensures
        r@ == trim_end_cr(line@),
{
    let mut b = line.len();
    assert(line@.take(b as int) =~= line@);
    while b > 0 && line[b - 1] == '\r'
        invariant
            b <= line@.len(),
            trim_end_cr(line@) == trim_end_cr(line@.take(b as int)),
        decreases b,
    {
        assert(line@.take(b as int).drop_last() =~= line@.take(b - 1));
        b = b - 1;
    }
    let r = copy_range(line.as_slice(), 0, b);
    assert(r@ =~= line@.take(b as int));
    r
}

/// Unfolds already split lines.
fn unfold_split(lines: &Vec<Vec<char>>) -> (out: Vec<Vec<char>>)
    ensures
        views(out@) == ({
            let st = unfold_state(views(lines@));
            if st.1.len() > 0 {
                st.0.push(st.1)
            } else {
                st.0
            }
        }),
{
    let mut out: Vec<Vec<char>> = Vec::new();
    let mut current: Vec<char> = Vec::new();
    let mut i: usize = 0;
    while i < lines.len()
        invariant
            i <= lines@.len(),
            (views(out@), current@) == unfold_state(views(lines@).take(i as int)),
        decreases lines@.len() - i,
    {
        let ghost prefix = views(lines@).take(i + 1);
        assert(prefix.drop_last() =~= views(lines@).take(i as int));
        let line = trim_end_cr_exec(&lines[i]);
        let ghost old_out = out@;
        if line.len() > 0 && (line[0] == ' ' || line[0] == '\t') {
            let mut j: usize = 1;
            let ghost base = current@;
            while j < line.len()
                invariant
                    1 <= j <= line@.len(),
                    current@ == base + line@.subrange(1, j as int),
                decreases line@.len() - j,
            {
                current.push(line[j]);
                j = j + 1;
                assert(current@ =~= base + line@.subrange(1, j as int));
            }
            assert(line@.subrange(1, line@.len() as int) =~= line@.drop_first());
        } else {
            if current.len() > 0 {
                out.push(current);
                assert(views(out@) =~= views(old_out).push(out@.last()@));
            }
            current = line;
        }
        i = i + 1;
    }
    assert(views(lines@).take(lines@.len() as int) =~= views(lines@));
    if current.len() > 0 {
        let ghost old_out = out@;
        out.push(current);
        assert(views(out@) =~= views(old_out).push(out@.last()@));
    }
    out
}

/// Unfolds the lines of `data` into character vectors.
pub fn unfold_line_chars(data: &[char]) -> (out: Vec<Vec<char>>)
    ensures
        views(out@) == spec_unfold_lines(data@),
{
    let lines = split_lines(data);
    unfold_split(&lines)
}

/// Unfold iCalendar line continuations (lines starting with space or tab).
pub fn unfold_lines(data: &str) -> (out: Vec<String>)
    ensures
        string_views(out@) == spec_unfold_lines(data@),
{
    let chars = chars_of(data);
    let lines = unfold_line_chars(chars.as_slice());
    let mut out: Vec<String> = Vec::new();
    let mut i: usize = 0;
    while i < lines.len()
        invariant
            i <= lines@.len(),
            string_views(out@) == views(lines@).take(i as int),
        decreases lines@.len() - i,
    {
        let s = string_from_chars(lines[i].as_slice());
        let ghost old_out = out@;
        out.push(s);
        assert(string_views(out@) =~= string_views(old_out).push(s@));
        assert(views(lines@).take(i + 1) =~= views(lines@).take(i as int).push(lines@[i as int]@));
        i = i + 1;
    }
    assert(views(lines@).take(lines@.len() as int) =~= views(lines@));
    out
}


// ---------------------------------------------------------------------------
// Property and field extraction
// ---------------------------------------------------------------------------

/// The value of property `name` on `line`: the text after `NAME:`, or after
/// the first `:` following `NAME;` (parameters); `None` when the line is not
/// that property.
pub open spec fn spec_extract_property(line: Seq<char>, name: Seq<char>) -> Option<Seq<char>> {
    if has_prefix(line, name) {
        let rest = line.skip(name.len() as int);
        if rest.len() > 0 && rest[0] == ':' {
            Some(rest.skip(1))
        } else if rest.len() > 0 && rest[0] == ';' {
            let p = first_index_of(rest, ':');
            if p < rest.len() {
                Some(rest.skip(p + 1))
            } else {
                None
            }
        } else {
            None
        }
    } else {
        None
    }
}

fn extract_property_chars(line: &[char], name: &[char]) -> (r: Option<Vec<char>>)
    ensures
        match r {
            Some(v) => spec_extract_property(line@, name@) == Some(v@),
            None => spec_extract_property(line@, name@) is None,
        },
{
    if !starts_with(line, name) {
        return None;
    }
    let n = name.len();
    let ghost rest = line@.skip(n as int);
    if n < line.len() && line[n] == ':' {
        assert(rest[0] == line@[n as int]);
        let v = copy_range(line, n + 1, line.len());
        assert(v@ =~= rest.skip(1));
        return Some(v);
    }
    if n < line.len() && line[n] == ';' {
        assert(rest[0] == line@[n as int]);
        let p = find_char(line, n, ':');
        if p < line.len() {
            let v = copy_range(line, p + 1, line.len());
            assert(v@ =~= rest.skip(p - n + 1));
            return Some(v);
        }
        return None;
    }
    proof {
        if rest.len() > 0 {
            assert(rest[0] == line@[n as int]);
        }
    }
    None
}

/// Extract a property value, handling parameters (e.g., DTSTART;TZID=...:20260301T090000).
pub fn extract_property(line: &str, name: &str) -> (r: Option<String>)
    ensures
        opt_view(r) == spec_extract_property(line@, name@),
{
    let l = chars_of(line);
    let n = chars_of(name);
    match extract_property_chars(l.as_slice(), n.as_slice()) {
        Some(v) => Some(string_from_chars(v.as_slice())),
        None => None,
    }
}

/// The fields before any line has been read.
pub open spec fn initial_fields() -> IcalFieldsView {
    IcalFieldsView {
        uid: None,
        dtstart: None,
        dtend: None,
        summary: None,
        component_type: "VEVENT"@,
    }
}

/// The component marker a trimmed line sets: the new fields and whether a
/// VEVENT/VTODO component is open afterwards.
pub open spec fn component_step(f: IcalFieldsView, in_component: bool, line: Seq<char>) -> (
    IcalFieldsView,
    bool,
) {
    if has_prefix(line, "BEGIN:VEVENT"@) {
        (IcalFieldsView { component_type: "VEVENT"@, ..f }, true)
    } else if has_prefix(line, "BEGIN:VTODO"@) {
        (IcalFieldsView { component_type: "VTODO"@, ..f }, true)
    } else if has_prefix(line, "END:VEVENT"@) || has_prefix(line, "END:VTODO"@) {
        (f, false)
    } else {
        (f, in_component)
    }
}

/// The fields after reading one trimmed line: inside a component (and for
/// `UID` lines anywhere) the first matching of UID, DTSTART, DTEND, DUE and
/// SUMMARY sets its field; DUE sets `dtend` only when no DTEND was seen.
pub open spec fn property_step(f: IcalFieldsView, in_component: bool, line: Seq<char>) -> IcalFieldsView {
    if !in_component && !has_prefix(line, "UID"@) {
        f
    } else if spec_extract_property(line, "UID"@) is Some {
        IcalFieldsView { uid: spec_extract_property(line, "UID"@), ..f }
    } else if spec_extract_property(line, "DTSTART"@) is Some {
        IcalFieldsView { dtstart: spec_extract_property(line, "DTSTART"@), ..f }
    } else if spec_extract_property(line, "DTEND"@) is Some {
        IcalFieldsView { dtend: spec_extract_property(line, "DTEND"@), ..f }
    } else if spec_extract_property(line, "DUE"@) is Some {
        if f.dtend is None {
            IcalFieldsView { dtend: spec_extract_property(line, "DUE"@), ..f }
        } else {
            f
        }
    } else if spec_extract_property(line, "SUMMARY"@) is Some {
        IcalFieldsView { summary: spec_extract_property(line, "SUMMARY"@), ..f }
    } else {
        f
    }
}

/// The fields and component flag after reading the unfolded `lines`.
pub open spec fn extract_state(lines: Seq<Seq<char>>) -> (IcalFieldsView, bool)
    decreases lines.len(),
{
    if lines.len() == 0 {
        (initial_fields(), false)
    } else {
        let prev = extract_state(lines.drop_last());
        let line = trim(lines.last());
        let c = component_step(prev.0, prev.1, line);
        (property_step(c.0, c.1, line), c.1)
    }
}

/// The fields extracted from raw iCalendar text.
pub open spec fn spec_extract_fields(data: Seq<char>) -> IcalFieldsView {
    extract_state(spec_unfold_lines(data)).0
}

/// Character vectors of the literals the extraction compares against.
struct Markers {
    begin_vevent: Vec<char>,
    begin_vtodo: Vec<char>,
    end_vevent: Vec<char>,
    end_vtodo: Vec<char>,
    uid: Vec<char>,
    dtstart: Vec<char>,
    dtend: Vec<char>,
    due: Vec<char>,
    summary: Vec<char>,
}

impl Markers {
    spec fn wf(&self) -> bool {
        &&& self.begin_vevent@ == "BEGIN:VEVENT"@
        &&& self.begin_vtodo@ == "BEGIN:VTODO"@
        &&& self.end_vevent@ == "END:VEVENT"@
        &&& self.end_vtodo@ == "END:VTODO"@
        &&& self.uid@ == "UID"@
        &&& self.dtstart@ == "DTSTART"@
        &&& self.dtend@ == "DTEND"@
        &&& self.due@ == "DUE"@
        &&& self.summary@ == "SUMMARY"@
    }

    fn new() -> (m: Self)
        ensures
            m.wf(),
    {
        Markers {
            begin_vevent: chars_of("BEGIN:VEVENT"),
            begin_vtodo: chars_of("BEGIN:VTODO"),
            end_vevent: chars_of("END:VEVENT"),
            end_vtodo: chars_of("END:VTODO"),
            uid: chars_of("UID"),
            dtstart: chars_of("DTSTART"),
            dtend: chars_of("DTEND"),
            due: chars_of("DUE"),
            summary: chars_of("SUMMARY"),
        }
    }
}

/// Applies `property_step` to exec fields.
fn apply_property(f: &mut IcalFields, in_component: bool, line: &[char], m: &Markers)
    requires
        m.wf(),
    ensures
        final(f)@ == property_step(old(f)@, in_component, line@),
{
    if !in_component && !starts_with(line, m.uid.as_slice()) {
        return;
    }
    if let Some(v) = extract_property_chars(line, m.uid.as_slice()) {
        f.uid = Some(string_from_chars(v.as_slice()));
    } else if let Some(v) = extract_property_chars(line, m.dtstart.as_slice()) {
        f.dtstart = Some(string_from_chars(v.as_slice()));
    } else if let Some(v) = extract_property_chars(line, m.dtend.as_slice()) {
        f.dtend = Some(string_from_chars(v.as_slice()));
    } else if let Some(v) = extract_property_chars(line, m.due.as_slice()) {
        if f.dtend.is_none() {
            f.dtend = Some(string_from_chars(v.as_slice()));
        }
    } else if let Some(v) = extract_property_chars(line, m.summary.as_slice()) {
        f.summary = Some(string_from_chars(v.as_slice()));
    }
}

/// Extract key fields from raw iCalendar data.
/// Uses simple line-based parsing to avoid dependency on full iCal parser
/// for field extraction (the raw data is stored as-is).
pub fn extract_fields(ical_data: &str) -> (fields: IcalFields)
    ensures
        fields@ == spec_extract_fields(ical_data@),
{
    let m = Markers::new();
    let mut fields = IcalFields {
        uid: None,
        dtstart: None,
        dtend: None,
        summary: None,
        component_type: String::from_str("VEVENT"),
    };
    let mut in_component = false;
    let chars = chars_of(ical_data);
    let lines = unfold_line_chars(chars.as_slice());
    let mut i: usize = 0;
    while i < lines.len()
        invariant
            m.wf(),
            i <= lines@.len(),
            (fields@, in_component) == extract_state(views(lines@).take(i as int)),
        decreases lines@.len() - i,
    {
        assert(views(lines@).take(i + 1).drop_last() =~= views(lines@).take(i as int));
        let (a, b) = trim_bounds(lines[i].as_slice());
        let line = copy_range(lines[i].as_slice(), a, b);
        if starts_with(line.as_slice(), m.begin_vevent.as_slice()) {
            in_component = true;
            fields.component_type = String::from_str("VEVENT");
        } else if starts_with(line.as_slice(), m.begin_vtodo.as_slice()) {
            in_component = true;
            fields.component_type = String::from_str("VTODO");
        } else if starts_with(line.as_slice(), m.end_vevent.as_slice()) || starts_with(
            line.as_slice(),
            m.end_vtodo.as_slice(),
        ) {
            in_component = false;
        }
        apply_property(&mut fields, in_component, line.as_slice(), &m);
        i = i + 1;
    }
    assert(views(lines@).take(lines@.len() as int) =~= views(lines@));
    fields
}

} // verus!
