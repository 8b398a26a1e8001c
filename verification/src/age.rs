//! Rendering of an object's age: the distance between its creation
//! timestamp and the current time, as a short human-relative duration
//! such as `3d` or `12h`, never a raw timestamp.

use vstd::prelude::*;
use crate::text::{dec_rep, lemma_dec_rep_form, u64_to_dec};

verus! {

/// The sentinel printed wherever a value is absent or unusable.
pub open spec fn sentinel_text() -> Seq<char> {
    seq!['N', 'o', 'n', 'e']
}

/// Returns the sentinel string `"None"`.
pub fn sentinel() -> (r: String)
    ensures
        r@ == sentinel_text(),
{
    let r = "None";
    proof {
        reveal_strlit("None");
        assert(r@ =~= sentinel_text());
    }
    r.to_owned()
}

/// A duration of `d` seconds as a count of its largest fitting unit:
/// days, hours, minutes or seconds.
pub open spec fn duration_text(d: nat) -> Seq<char> {
    if d >= 86400 {
        dec_rep(d / 86400).push('d')
    } else if d >= 3600 {
        dec_rep(d / 3600).push('h')
    } else if d >= 60 {
        dec_rep(d / 60).push('m')
    } else {
        dec_rep(d).push('s')
    }
}

/// The age of an object created at `created`, seen at `now` (both seconds
/// since the epoch); a creation time in the future renders as `0s`.
pub open spec fn age_text(created: u64, now: u64) -> Seq<char> {
    if created <= now {
        duration_text((now - created) as nat)
    } else {
        duration_text(0)
    }
}

/// A positive age never renders as a zero count: its leading digit is
/// non-zero whenever the creation time lies strictly in the past.
pub proof fn lemma_age_positive(created: u64, now: u64)
    requires
        created < now,
    ensures
        age_text(created, now).len() >= 2,
        age_text(created, now)[0] != '0',
{
    let d = (now - created) as nat;
    if d >= 86400 {
        lemma_dec_rep_form(d / 86400);
    } else if d >= 3600 {
        lemma_dec_rep_form(d / 3600);
    } else if d >= 60 {
        lemma_dec_rep_form(d / 60);
    } else {
        lemma_dec_rep_form(d);
    }
}

/// Renders the duration between `created` and `now` with the largest
/// fitting unit.
pub fn time_to_age(created: u64, now: u64) -> (r: String)
    ensures
        r@ == age_text(created, now),
{
    let d: u64 = if created <= now {
        now - created
    } else {
        0
    };
    let (count, unit): (u64, &'static str) = if d >= 86400 {
        (d / 86400, "d")
    } else if d >= 3600 {
        (d / 3600, "h")
    } else if d >= 60 {
        (d / 60, "m")
    } else {
        (d, "s")
    };
    proof {
        reveal_strlit("d");
        reveal_strlit("h");
        reveal_strlit("m");
        reveal_strlit("s");
        assert("d"@ =~= seq!['d']);
        assert("h"@ =~= seq!['h']);
        assert("m"@ =~= seq!['m']);
        assert("s"@ =~= seq!['s']);
    }
    let mut r = u64_to_dec(count);
    r.append(unit);
    proof {
        assert(r@ =~= age_text(created, now));
    }
    r
}

/// The age cell for an object whose creation timestamp may be absent or
/// may not have parsed: such an object renders the sentinel.
pub open spec fn age_cell_text(created: Option<u64>, now: u64) -> Seq<char> {
    match created {
        Some(t) => age_text(t, now),
        None => sentinel_text(),
    }
}

/// Renders the age column cell for an object created at `created`
/// (seconds since the epoch, absent when the timestamp was missing or
/// unreadable), as seen at `now`.
pub fn calculate_age(created: Option<u64>, now: u64) -> (r: String)
    ensures
        r@ == age_cell_text(created, now),
{
    match created {
        Some(t) => time_to_age(t, now),
        None => sentinel(),
    }
}

} // verus!
