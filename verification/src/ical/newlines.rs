//! Line endings: iCalendar text with CRLF line breaks and the same text with
//! LF line breaks unfold, and so are read, alike.
use vstd::prelude::*;

use super::parser::{
    spec_extract_fields, spec_lines, spec_unfold_lines, strip_cr, trim_end_cr, unfold_state,
};
use crate::text::{first_index_of, lemma_first_index_of, lemma_first_index_of_unique};

verus! {

/// `s.replace("\r\n", "\n")`: each CR LF pair, read from the left, becomes
/// a single LF.
pub open spec fn crlf_to_lf(s: Seq<char>) -> Seq<char>
    decreases s.len(),
{
    if s.len() < 2 {
        s
    } else if s[0] == '\r' && s[1] == '\n' {
        seq!['\n'] + crlf_to_lf(s.skip(2))
    } else {
        seq![s[0]] + crlf_to_lf(s.skip(1))
    }
}

/// `s` holds no line feed.
pub open spec fn no_lf(s: Seq<char>) -> bool {
    forall|j: int| 0 <= j < s.len() ==> #[trigger] s[j] != '\n'
}

/// Lines with all their trailing carriage returns removed.
pub open spec fn trimmed(ls: Seq<Seq<char>>) -> Seq<Seq<char>> {
    ls.map_values(|l: Seq<char>| trim_end_cr(l))
}

proof fn lemma_no_lf_skip(t: Seq<char>, n: int)
    requires
        no_lf(t),
        0 <= n <= t.len(),
    ensures
        no_lf(t.skip(n)),
{
    assert forall|j: int| 0 <= j < t.skip(n).len() implies #[trigger] t.skip(n)[j] != '\n' by {
        assert(t.skip(n)[j] == t[j + n]);
    }
}

/// Text without a line feed has no CR LF pair to replace.
proof fn lemma_crlf_no_lf(t: Seq<char>)
    requires
        no_lf(t),
    ensures
        crlf_to_lf(t) == t,
    decreases t.len(),
{
    if t.len() >= 2 {
        assert(t[1] != '\n');
        lemma_no_lf_skip(t, 1);
        lemma_crlf_no_lf(t.skip(1));
        assert(seq![t[0]] + t.skip(1) =~= t);
    }
}

/// Replacing in a line, its line feed and the rest: the line loses one
/// carriage return right before the line feed.
proof fn lemma_crlf_split(p: Seq<char>, r: Seq<char>)
    requires
        no_lf(p),
    ensures
        crlf_to_lf(p + seq!['\n'] + r) == strip_cr(p) + seq!['\n'] + crlf_to_lf(r),
    decreases p.len(),
{
    let s = p + seq!['\n'] + r;
    if p.len() == 0 {
        assert(s =~= seq!['\n'] + r);
        assert(strip_cr(p) =~= p);
        if r.len() == 0 {
            assert(crlf_to_lf(r) =~= r);
            assert(crlf_to_lf(s) == s);
        } else {
            assert(s[0] == '\n');
            assert(s.skip(1) =~= r);
        }
        assert(crlf_to_lf(s) =~= strip_cr(p) + seq!['\n'] + crlf_to_lf(r));
    } else if p.len() == 1 && p[0] == '\r' {
        assert(s[0] == '\r' && s[1] == '\n');
        assert(s.skip(2) =~= r);
        assert(strip_cr(p) =~= Seq::<char>::empty());
        assert(crlf_to_lf(s) =~= strip_cr(p) + seq!['\n'] + crlf_to_lf(r));
    } else {
        let q = p.skip(1);
        lemma_no_lf_skip(p, 1);
        assert(s.skip(1) =~= q + seq!['\n'] + r);
        lemma_crlf_split(q, r);
        assert(s[0] == p[0]);
        if p.len() >= 2 {
            assert(s[1] == p[1]);
            assert(p[1] != '\n');
        } else {
            assert(s[1] == '\n');
        }
        assert(strip_cr(p) =~= seq![p[0]] + strip_cr(q)) by {
            if q.len() > 0 {
                assert(p.last() == q.last());
                if p.last() == '\r' {
                    assert(p.drop_last() =~= seq![p[0]] + q.drop_last());
                } else {
                    assert(p =~= seq![p[0]] + q);
                }
            } else {
                assert(p =~= seq![p[0]]);
            }
        }
        assert(crlf_to_lf(s) =~= strip_cr(p) + seq!['\n'] + crlf_to_lf(r));
    }
}

/// Dropping one trailing carriage return first changes nothing once all of
/// them are dropped.
proof fn lemma_trim_strip(x: Seq<char>)
    ensures
        trim_end_cr(strip_cr(x)) == trim_end_cr(x),
{
}

proof fn lemma_trimmed_cons(a: Seq<char>, l: Seq<Seq<char>>)
    ensures
        trimmed(seq![a] + l) == seq![trim_end_cr(a)] + trimmed(l),
{
    assert(trimmed(seq![a] + l) =~= seq![trim_end_cr(a)] + trimmed(l)) by {
        let x = seq![a] + l;
        assert forall|i: int| 0 <= i < x.len() implies trimmed(x)[i] == (seq![trim_end_cr(a)]
            + trimmed(l))[i] by {
            if i > 0 {
                assert(x[i] == l[i - 1]);
            }
        }
    }
}

/// The lines of a text and of the text with LF for CR LF are the same once
/// trailing carriage returns are dropped.
proof fn lemma_lines_crlf(s: Seq<char>)
    ensures
        trimmed(spec_lines(crlf_to_lf(s))) == trimmed(spec_lines(s)),
    decreases s.len(),
{
    if s.len() == 0 {
        assert(crlf_to_lf(s) == s);
    } else {
        let k = first_index_of(s, '\n');
        lemma_first_index_of(s, '\n');
        if k >= s.len() {
            assert(no_lf(s));
            lemma_crlf_no_lf(s);
        } else {
            let p = s.take(k);
            let r = s.skip(k + 1);
            assert(no_lf(p)) by {
                assert forall|j: int| 0 <= j < p.len() implies #[trigger] p[j] != '\n' by {
                    assert(p[j] == s[j]);
                }
            }
            assert(s =~= p + seq!['\n'] + r);
            lemma_crlf_split(p, r);
            let sp = strip_cr(p);
            assert(no_lf(sp)) by {
                assert forall|j: int| 0 <= j < sp.len() implies #[trigger] sp[j] != '\n' by {
                    assert(sp[j] == p[j]);
                }
            }
            let t = crlf_to_lf(s);
            assert(t =~= sp + seq!['\n'] + crlf_to_lf(r));
            assert forall|j: int| 0 <= j < sp.len() implies t[j] != '\n' by {
                assert(t[j] == sp[j]);
            }
            assert(t[sp.len() as int] == '\n');
            lemma_first_index_of_unique(t, '\n', sp.len() as int);
            assert(t.take(sp.len() as int) =~= sp);
            assert(t.skip(sp.len() as int + 1) =~= crlf_to_lf(r));
            assert(spec_lines(t) == seq![strip_cr(sp)] + spec_lines(crlf_to_lf(r)));
            assert(spec_lines(s) == seq![strip_cr(p)] + spec_lines(r));
            lemma_lines_crlf(r);
            lemma_trim_strip(sp);
            lemma_trim_strip(p);
            lemma_trimmed_cons(strip_cr(sp), spec_lines(crlf_to_lf(r)));
            lemma_trimmed_cons(strip_cr(p), spec_lines(r));
        }
    }
}

/// Unfolding looks at each line only without its trailing carriage returns.
proof fn lemma_unfold_trimmed(a: Seq<Seq<char>>, b: Seq<Seq<char>>)
    requires
        trimmed(a) == trimmed(b),
    ensures
        unfold_state(a) == unfold_state(b),
    decreases a.len(),
{
    assert(trimmed(a).len() == a.len());
    assert(trimmed(b).len() == b.len());
    if a.len() > 0 {
        assert(trimmed(a.drop_last()) =~= trimmed(a).drop_last());
        assert(trimmed(b.drop_last()) =~= trimmed(b).drop_last());
        lemma_unfold_trimmed(a.drop_last(), b.drop_last());
        assert(trim_end_cr(a.last()) == trimmed(a)[a.len() - 1]);
        assert(trim_end_cr(b.last()) == trimmed(b)[b.len() - 1]);
    }
}

/// CRLF and LF line endings are handled alike: the text with every CR LF
/// replaced by LF unfolds to the same lines, and so yields the same
/// extracted fields, as the text itself.
pub proof fn lemma_crlf_lf_read_alike(s: Seq<char>)
    ensures
        spec_unfold_lines(crlf_to_lf(s)) == spec_unfold_lines(s),
        spec_extract_fields(crlf_to_lf(s)) == spec_extract_fields(s),
{
    lemma_lines_crlf(s);
    lemma_unfold_trimmed(spec_lines(crlf_to_lf(s)), spec_lines(s));
}

} // verus!
