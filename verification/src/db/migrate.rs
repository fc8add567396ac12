//! The statements of the schema migration: the script split at `;`, each
//! piece trimmed, and only the pieces that hold SQL kept.
use vstd::prelude::*;

use crate::ical::parser::{spec_lines, split_lines};
use crate::text::{
    copy_range, find_char, first_index_of, has_prefix, lemma_first_index_of, starts_with,
    string_from_chars, trim, trim_bounds, chars_of, string_views, views,
};

verus! {

/// The pieces of `s` between the separators `c`, as `str::split` yields
/// them (a separator at the end gives a final empty piece).
pub open spec fn spec_split(s: Seq<char>, c: char) -> Seq<Seq<char>>
    decreases s.len(),
{
    let k = first_index_of(s, c);
    if 0 <= k < s.len() {
        seq![s.take(k)] + spec_split(s.skip(k + 1), c)
    } else {
        seq![s]
    }
}

/// A line that holds SQL: not blank once trimmed, and not a `--` comment.
pub open spec fn is_sql_line(line: Seq<char>) -> bool {
    trim(line).len() > 0 && !has_prefix(trim(line), "--"@)
}

/// Some line of the text holds SQL.
pub open spec fn has_sql(text: Seq<char>) -> bool {
    exists|i: int| 0 <= i < spec_lines(text).len() && is_sql_line(#[trigger] spec_lines(text)[i])
}

/// The trimmed pieces that are to be run, in order.
pub open spec fn kept_statements(pieces: Seq<Seq<char>>) -> Seq<Seq<char>>
    decreases pieces.len(),
{
    if pieces.len() == 0 {
        seq![]
    } else {
        let rest = kept_statements(pieces.drop_last());
        let t = trim(pieces.last());
        if t.len() > 0 && has_sql(t) {
            rest.push(t)
        } else {
            rest
        }
    }
}

/// The statements of a migration script: split at each `;`, trimmed, empty
/// pieces and pieces made only of comments left out (a comment may precede
/// SQL in the same piece; such a piece is run whole).
pub open spec fn spec_migration_statements(sql: Seq<char>) -> Seq<Seq<char>> {
    kept_statements(spec_split(sql, ';'))
}

fn is_sql_line_exec(line: &Vec<char>) -> (b: bool)
    ensures
        b == is_sql_line(line@),
{
    let (a, z) = trim_bounds(line.as_slice());
    let t = copy_range(line.as_slice(), a, z);
    let dash = chars_of("--");
    t.len() > 0 && !starts_with(t.as_slice(), dash.as_slice())
}

fn has_sql_exec(text: &[char]) -> (b: bool)
    ensures
        b == has_sql(text@),
{
    let lines = split_lines(text);
    let ghost ls = spec_lines(text@);
    let mut i: usize = 0;
    while i < lines.len()
        invariant
            views(lines@) == ls,
            ls == spec_lines(text@),
            i <= lines@.len(),
            forall|j: int| 0 <= j < i ==> !is_sql_line(#[trigger] ls[j]),
        decreases lines@.len() - i,
    {
        assert(ls[i as int] == lines@[i as int]@);
        if is_sql_line_exec(&lines[i]) {
            return true;
        }
        i = i + 1;
    }
    false
}

/// The statements a migration script runs, one by one (see
/// `spec_migration_statements`).
pub fn migration_statements(sql: &str) -> (out: Vec<String>)
    ensures
        string_views(out@) == spec_migration_statements(sql@),
{
    let c = chars_of(sql);
    let n = c.len();
    let mut out: Vec<String> = Vec::new();
    let mut st: usize = 0;
    let ghost mut done: Seq<Seq<char>> = seq![];
    assert(c@.skip(0) =~= c@);
    loop
        invariant
            c@ == sql@,
            n == c@.len(),
            st <= n,
            spec_split(sql@, ';') == done + spec_split(c@.skip(st as int), ';'),
            string_views(out@) == kept_statements(done),
        decreases n - st,
    {
        let k = find_char(c.as_slice(), st, ';');
        let ghost rest = c@.skip(st as int);
        proof {
            lemma_first_index_of(rest, ';');
        }
        let piece = copy_range(c.as_slice(), st, k);
        assert(piece@ =~= rest.take(k - st));
        let (a, z) = trim_bounds(piece.as_slice());
        let t = copy_range(piece.as_slice(), a, z);
        let ghost before = out@;
        if t.len() > 0 && has_sql_exec(t.as_slice()) {
            out.push(string_from_chars(t.as_slice()));
            assert(string_views(out@) =~= string_views(before).push(trim(piece@)));
        }
        proof {
            assert(done.push(piece@).drop_last() =~= done);
        }
        if k == n {
            proof {
                assert(spec_split(rest, ';') == seq![rest]);
                assert(rest.take(k - st) =~= rest);
                done = done.push(piece@);
                assert(spec_split(sql@, ';') =~= done);
            }
            return out;
        }
        proof {
            assert(rest.skip(k - st + 1) =~= c@.skip(k + 1));
            assert(spec_split(rest, ';') == seq![rest.take(k - st)] + spec_split(c@.skip(k + 1), ';'));
            assert(done + spec_split(rest, ';') =~= done.push(piece@) + spec_split(c@.skip(k + 1), ';'));
            done = done.push(piece@);
        }
        st = k + 1;
    }
}

} // verus!
