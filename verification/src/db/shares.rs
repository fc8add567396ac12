//! Calendar shares: the permission a user has on a calendar, and the
//! errors of the share store.
use vstd::prelude::*;

use super::models::{permission_of_text, Calendar, Permission};
use crate::error::AppError;

verus! {

/// The permission of a user on a calendar: read-write for its owner,
/// otherwise what a share grants (a share with an unknown permission text
/// grants nothing).
pub open spec fn spec_permission_for(is_owner: bool, share: Option<Seq<char>>) -> Option<Permission> {
    if is_owner {
        Some(Permission::ReadWrite)
    } else {
        match share {
            Some(p) => permission_of_text(p),
            None => None,
        }
    }
}

/// Check what permission a user has on a calendar (owner = ReadWrite,
/// shared, or None).
pub fn permission_for(is_owner: bool, share: Option<&str>) -> (p: Option<Permission>)
    ensures
        p == spec_permission_for(
            is_owner,
            match share {
                Some(s) => Some(s@),
                None => None,
            },
        ),
{
    if is_owner {
        return Some(Permission::ReadWrite);
    }
    match share {
        Some(s) => Permission::from_str_value(s),
        None => None,
    }
}

/// The error of revoking a share that does not exist.
pub fn share_not_found() -> (e: AppError)
    ensures
        e matches AppError::NotFound(m) && m@ == "Share not found"@,
{
    AppError::NotFound(String::from_str("Share not found"))
}


/// `a` comes before `b` in the order of `String`'s comparison (code point by
/// code point, a proper prefix first).
pub open spec fn name_lt(a: Seq<char>, b: Seq<char>) -> bool
    decreases a.len(),
{
    if b.len() == 0 {
        false
    } else if a.len() == 0 {
        true
    } else if a[0] != b[0] {
        a[0] < b[0]
    } else {
        name_lt(a.drop_first(), b.drop_first())
    }
}

fn name_less(a: &str, b: &str) -> (r: bool)
    ensures
        r == name_lt(a@, b@),
{
    let x = crate::text::chars_of(a);
    let y = crate::text::chars_of(b);
    let mut i: usize = 0;
    assert(x@.skip(0) =~= x@);
    assert(y@.skip(0) =~= y@);
    while i < x.len() && i < y.len() && x[i] == y[i]
        invariant
            x@ == a@,
            y@ == b@,
            i <= x@.len(),
            i <= y@.len(),
            name_lt(a@, b@) == name_lt(x@.skip(i as int), y@.skip(i as int)),
        decreases x@.len() - i,
    {
        assert(x@.skip(i as int).drop_first() =~= x@.skip(i + 1));
        assert(y@.skip(i as int).drop_first() =~= y@.skip(i + 1));
        i = i + 1;
    }
    if i == y.len() {
        assert(y@.skip(i as int).len() == 0);
        false
    } else if i == x.len() {
        assert(x@.skip(i as int).len() == 0);
        true
    } else {
        assert(x@.skip(i as int)[0] == x@[i as int]);
        assert(y@.skip(i as int)[0] == y@[i as int]);
        x[i] < y[i]
    }
}

/// `x` placed after every entry whose name does not come after its own
/// (so equal names keep their order).
pub open spec fn insert_by_name(s: Seq<(Calendar, Permission)>, x: (Calendar, Permission)) -> Seq<(Calendar, Permission)>
    decreases s.len(),
{
    if s.len() == 0 {
        seq![x]
    } else if name_lt(x.0.name@, s.last().0.name@) {
        insert_by_name(s.drop_last(), x).push(s.last())
    } else {
        s.push(x)
    }
}

/// The entries sorted by calendar name, stably.
pub open spec fn sort_by_name(s: Seq<(Calendar, Permission)>) -> Seq<(Calendar, Permission)>
    decreases s.len(),
{
    if s.len() == 0 {
        seq![]
    } else {
        insert_by_name(sort_by_name(s.drop_last()), s.last())
    }
}

/// The shares that still name a calendar and a known permission, in order.
pub open spec fn live_shares(entries: Seq<(Option<Calendar>, String)>) -> Seq<(Calendar, Permission)>
    decreases entries.len(),
{
    if entries.len() == 0 {
        seq![]
    } else {
        let rest = live_shares(entries.drop_last());
        let e = entries.last();
        match (e.0, permission_of_text(e.1@)) {
            (Some(c), Some(p)) => rest.push((c, p)),
            _ => rest,
        }
    }
}

fn insert_sorted(v: &mut Vec<(Calendar, Permission)>, x: (Calendar, Permission))
    ensures
        final(v)@ == insert_by_name(old(v)@, x),
    decreases old(v)@.len(),
{
    let n = v.len();
    if n == 0 {
        v.push(x);
        assert(v@ =~= seq![x]);
        return;
    }
    if name_less(x.0.name.as_str(), v[n - 1].0.name.as_str()) {
        let last = v.pop().unwrap();
        let ghost shorter = v@;
        insert_sorted(v, x);
        v.push(last);
        assert(shorter =~= old(v)@.drop_last());
    } else {
        v.push(x);
    }
}

/// The calendars shared with a user, with their permissions, sorted by
/// name for consistent ordering: each share whose calendar still exists and
/// whose stored permission is known.
pub fn shared_calendar_list(entries: Vec<(Option<Calendar>, String)>) -> (r: Vec<(Calendar, Permission)>)
    ensures
        r@ == sort_by_name(live_shares(entries@)),
{
    let ghost all = entries@;
    let mut sorted: Vec<(Calendar, Permission)> = Vec::new();
    let ghost mut kept: Seq<(Calendar, Permission)> = seq![];
    for e in it: entries
        invariant
            all == it.seq(),
            kept == live_shares(all.take(it.index() as int)),
            sorted@ == sort_by_name(kept),
    {
        let ghost i = it.index();
        assert(e == all[i as int]);
        assert(all.take(i + 1).drop_last() =~= all.take(i as int));
        assert(all.take(i + 1).last() == all[i as int]);
        let perm = Permission::from_str_value(e.1.as_str());
        match (e.0, perm) {
            (Some(c), Some(p)) => {
                proof {
                    kept = kept.push((c, p));
                    assert(kept.drop_last() =~= live_shares(all.take(i as int)));
                }
                insert_sorted(&mut sorted, (c, p));
            },
            _ => {},
        }
    }
    let ghost i = all.len();
    assert(all.take(i as int) =~= all);
    sorted
}


proof fn lemma_name_lt_order(a: Seq<char>, b: Seq<char>, c: Seq<char>)
    ensures
        name_lt(a, b) ==> !name_lt(b, a),
        name_lt(a, b) && name_lt(b, c) ==> name_lt(a, c),
        !name_lt(a, b) && !name_lt(b, a) ==> a == b,
    decreases a.len(),
{
    if a.len() > 0 && b.len() > 0 && c.len() > 0 {
        lemma_name_lt_order(a.drop_first(), b.drop_first(), c.drop_first());
    }
    if a.len() > 0 && b.len() > 0 && a[0] == b[0] {
        lemma_name_lt_order(a.drop_first(), b.drop_first(), b.drop_first());
        if !name_lt(a, b) && !name_lt(b, a) {
            assert(a =~= seq![a[0]] + a.drop_first());
            assert(b =~= seq![b[0]] + b.drop_first());
        }
    }
}

/// The entries are in name order.
pub open spec fn sorted_by_name(s: Seq<(Calendar, Permission)>) -> bool {
    forall|i: int, j: int| 0 <= i < j < s.len() ==> !name_lt(#[trigger] s[j].0.name@, #[trigger] s[i].0.name@)
}

proof fn lemma_insert_members(s: Seq<(Calendar, Permission)>, x: (Calendar, Permission))
    ensures
        insert_by_name(s, x).len() == s.len() + 1,
        forall|k: int| 0 <= k < insert_by_name(s, x).len() ==> #[trigger] insert_by_name(s, x)[k] == x
            || s.contains(insert_by_name(s, x)[k]),
    decreases s.len(),
{
    if s.len() > 0 && name_lt(x.0.name@, s.last().0.name@) {
        let d = s.drop_last();
        lemma_insert_members(d, x);
        let r = insert_by_name(s, x);
        assert forall|k: int| 0 <= k < r.len() implies #[trigger] r[k] == x || s.contains(r[k]) by {
            if k < r.len() - 1 {
                let dk = insert_by_name(d, x)[k];
                assert(r[k] == dk);
                if dk != x {
                    let j = choose|j: int| 0 <= j < d.len() && d[j] == dk;
                    assert(s[j] == dk);
                }
            } else {
                assert(s[s.len() - 1] == s.last());
            }
        }
    } else if s.len() > 0 {
        let r = insert_by_name(s, x);
        assert forall|k: int| 0 <= k < r.len() implies #[trigger] r[k] == x || s.contains(r[k]) by {
            if k < s.len() {
                assert(r[k] == s[k]);
            }
        }
    }
}

proof fn lemma_insert_sorted(s: Seq<(Calendar, Permission)>, x: (Calendar, Permission))
    requires
        sorted_by_name(s),
    ensures
        sorted_by_name(insert_by_name(s, x)),
    decreases s.len(),
{
    let r = insert_by_name(s, x);
    if s.len() == 0 {
    } else if name_lt(x.0.name@, s.last().0.name@) {
        let d = s.drop_last();
        let l = s.last();
        assert(sorted_by_name(d)) by {
            assert forall|i: int, j: int| 0 <= i < j < d.len() implies !name_lt(#[trigger] d[j].0.name@, #[trigger] d[i].0.name@) by {
                assert(d[i] == s[i] && d[j] == s[j]);
            }
        }
        lemma_insert_sorted(d, x);
        lemma_insert_members(d, x);
        let m = insert_by_name(d, x);
        assert forall|i: int, j: int| 0 <= i < j < r.len() implies !name_lt(#[trigger] r[j].0.name@, #[trigger] r[i].0.name@) by {
            if j < r.len() - 1 {
                assert(r[i] == m[i] && r[j] == m[j]);
            } else {
                assert(r[j] == l);
                assert(r[i] == m[i]);
                if m[i] == x {
                    lemma_name_lt_order(x.0.name@, l.0.name@, l.0.name@);
                } else {
                    let k = choose|k: int| 0 <= k < d.len() && d[k] == m[i];
                    assert(s[k] == m[i]);
                    assert(s[s.len() - 1] == l);
                }
            }
        }
    } else {
        let l = s.last();
        assert forall|i: int, j: int| 0 <= i < j < r.len() implies !name_lt(#[trigger] r[j].0.name@, #[trigger] r[i].0.name@) by {
            if j < s.len() {
                assert(r[i] == s[i] && r[j] == s[j]);
            } else {
                assert(r[j] == x);
                assert(r[i] == s[i]);
                if i < s.len() - 1 {
                    assert(s[s.len() - 1] == l);
                    assert(!name_lt(l.0.name@, s[i].0.name@));
                    lemma_name_lt_order(x.0.name@, l.0.name@, s[i].0.name@);
                    lemma_name_lt_order(l.0.name@, s[i].0.name@, x.0.name@);
                    lemma_name_lt_order(x.0.name@, s[i].0.name@, l.0.name@);
                }
            }
        }
    }
}

/// The shared calendars come out in name order, one for each live share.
pub proof fn lemma_shared_list_sorted(s: Seq<(Calendar, Permission)>)
    ensures
        sorted_by_name(sort_by_name(s)),
        sort_by_name(s).len() == s.len(),
    decreases s.len(),
{
    if s.len() > 0 {
        lemma_shared_list_sorted(s.drop_last());
        lemma_insert_sorted(sort_by_name(s.drop_last()), s.last());
        lemma_insert_members(sort_by_name(s.drop_last()), s.last());
    }
}

} // verus!
