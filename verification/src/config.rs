//! The server's settings: ports, database URL and MCP tool mode, with their
//! defaults.
use vstd::prelude::*;

use crate::text::chars_of;

verus! {

/// Application configuration.
#[derive(Debug, Clone)]
pub struct Config {
    pub caldav_port: u16,
    pub mcp_port: u16,
    pub database_url: String,
    /// MCP tool mode: "full" (12 tools) or "simple" (a few tools for local LLMs).
    pub tool_mode: String,
}

/// The value of a decimal digit.
pub open spec fn digit(c: char) -> int {
    c as int - '0' as int
}

/// The number the decimal digits spell.
pub open spec fn decimal(s: Seq<char>) -> int
    decreases s.len(),
{
    if s.len() == 0 {
        0
    } else {
        10 * decimal(s.drop_last()) + digit(s.last())
    }
}

/// All characters are decimal digits.
pub open spec fn all_digits(s: Seq<char>) -> bool {
    forall|i: int| 0 <= i < s.len() ==> '0' <= #[trigger] s[i] && s[i] <= '9'
}

/// `str::parse::<u16>`: an optional `+`, then one or more decimal digits
/// spelling a number below 65536.
pub open spec fn spec_parse_u16(s: Seq<char>) -> Option<u16> {
    let d = if s.len() > 0 && s[0] == '+' {
        s.skip(1)
    } else {
        s
    };
    if d.len() > 0 && all_digits(d) && decimal(d) < 65536 {
        Some(decimal(d) as u16)
    } else {
        None
    }
}

proof fn lemma_decimal_nonneg(s: Seq<char>)
    requires
        all_digits(s),
    ensures
        decimal(s) >= 0,
    decreases s.len(),
{
    if s.len() > 0 {
        assert(all_digits(s.drop_last())) by {
            assert forall|i: int| 0 <= i < s.drop_last().len() implies '0' <= #[trigger] s.drop_last()[i]
                && s.drop_last()[i] <= '9' by {
                assert(s.drop_last()[i] == s[i]);
            }
        }
        lemma_decimal_nonneg(s.drop_last());
    }
}

/// Parse a port number as `str::parse::<u16>` does.
pub fn parse_port(s: &str) -> (r: Option<u16>)
    ensures
        r == spec_parse_u16(s@),
{
    let c = chars_of(s);
    let start: usize = if c.len() > 0 && c[0] == '+' {
        1
    } else {
        0
    };
    let ghost d = c@.skip(start as int);
    assert(c@.skip(0) =~= c@);
    assert(d == (if s@.len() > 0 && s@[0] == '+' {
        s@.skip(1)
    } else {
        s@
    }));
    if start >= c.len() {
        assert(d.len() == 0);
        return None;
    }
    let mut value: u32 = 0;
    let mut i: usize = start;
    while i < c.len()
        invariant
            c@ == s@,
            d == c@.skip(start as int),
            d == (if s@.len() > 0 && s@[0] == '+' {
                s@.skip(1)
            } else {
                s@
            }),
            d.len() > 0,
            start <= i <= c@.len(),
            all_digits(d.take(i - start)),
            value == decimal(d.take(i - start)),
            value < 65536,
        decreases c@.len() - i,
    {
        let ch = c[i];
        assert(d.take(i - start + 1).drop_last() =~= d.take(i - start));
        assert(d[i - start] == ch);
        if ch < '0' || ch > '9' {
            assert(!all_digits(d)) by {
                assert(d[i - start] == ch);
            }
            return None;
        }
        let next: u32 = value * 10 + (ch as u32 - '0' as u32);
        assert(all_digits(d.take(i - start + 1))) by {
            assert forall|j: int| 0 <= j < d.take(i - start + 1).len() implies '0'
                <= #[trigger] d.take(i - start + 1)[j] && d.take(i - start + 1)[j] <= '9' by {
                if j < i - start {
                    assert(d.take(i - start + 1)[j] == d.take(i - start)[j]);
                }
            }
        }
        if next >= 65536 {
            proof {
                assert(decimal(d.take(i - start + 1)) >= 65536);
                lemma_prefix_bound(d, i - start + 1);
            }
            return None;
        }
        value = next;
        i = i + 1;
    }
    assert(d.take(i - start) =~= d);
    Some(value as u16)
}

/// A longer run of digits never spells a smaller number.
proof fn lemma_prefix_bound(d: Seq<char>, k: int)
    requires
        0 <= k <= d.len(),
        all_digits(d.take(k)),
    ensures
        all_digits(d) ==> decimal(d) >= decimal(d.take(k)),
    decreases d.len() - k,
{
    if all_digits(d) && k < d.len() {
        assert(all_digits(d.take(k + 1))) by {
            assert forall|j: int| 0 <= j < d.take(k + 1).len() implies '0' <= #[trigger] d.take(
                k + 1,
            )[j] && d.take(k + 1)[j] <= '9' by {
                assert(d.take(k + 1)[j] == d[j]);
            }
        }
        lemma_prefix_bound(d, k + 1);
        assert(d.take(k + 1).drop_last() =~= d.take(k));
        lemma_decimal_nonneg(d.take(k));
        assert(decimal(d.take(k + 1)) >= decimal(d.take(k)));
    } else if all_digits(d) {
        assert(d.take(k) =~= d);
    }
}

/// The settings from the environment's values (each absent one takes its
/// default: ports 5232 and 5233, `sqlite:data/caldav.db?mode=rwc`, `full`).
/// A port that is set must be a valid port number.
pub open spec fn port_or(value: Option<Seq<char>>, default: u16) -> Option<u16> {
    match value {
        Some(v) => spec_parse_u16(v),
        None => Some(default),
    }
}

/// The text of an optional `&str`.
pub open spec fn opt_str(o: Option<&str>) -> Option<Seq<char>> {
    match o {
        Some(s) => Some(s@),
        None => None,
    }
}

impl Config {
    /// Build the configuration from the environment's values, with the
    /// defaults for those that are not set.
    pub fn from_values(
        caldav_port: Option<&str>,
        mcp_port: Option<&str>,
        database_url: Option<&str>,
        tool_mode: Option<&str>,
    ) -> (c: Config)
        requires
            port_or(opt_str(caldav_port), 5232) is Some,
            port_or(opt_str(mcp_port), 5233) is Some,
        ensures
            Some(c.caldav_port) == port_or(opt_str(caldav_port), 5232),
            Some(c.mcp_port) == port_or(opt_str(mcp_port), 5233),
            c.database_url@ == (match database_url {
                Some(u) => u@,
                None => "sqlite:data/caldav.db?mode=rwc"@,
            }),
            c.tool_mode@ == (match tool_mode {
                Some(m) => m@,
                None => "full"@,
            }),
    {
        let caldav = match caldav_port {
            Some(p) => parse_port(p).unwrap(),
            None => 5232,
        };
        let mcp = match mcp_port {
            Some(p) => parse_port(p).unwrap(),
            None => 5233,
        };
        let database_url = String::from_str(
            match database_url {
                Some(u) => u,
                None => "sqlite:data/caldav.db?mode=rwc",
            },
        );
        let tool_mode = String::from_str(
            match tool_mode {
                Some(m) => m,
                None => "full",
            },
        );
        Config { caldav_port: caldav, mcp_port: mcp, database_url, tool_mode }
    }
}

} // verus!
