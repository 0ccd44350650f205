//! The recurrence calculator: given a reminder's fire time, its interval
//! policy and its optional expiry, computes the next occurrence at or past
//! the current time, or decides that the reminder is spent.
//!
//! Two policies exist. A scalar interval adds the same period until the
//! fire time is no longer in the past. A multi-position policy cycles
//! through an ordered sequence of periods, one per advancement step,
//! keeping a position cursor; a sequence that cannot make progress (empty,
//! or all zero) retires the reminder instead of looping.

use vstd::prelude::*;

use vstd::arithmetic::div_mod::{
    lemma_add_mod_noop, lemma_add_mod_noop_right, lemma_mod_multiples_vanish, lemma_small_mod,
};

verus! {

/// What becomes of a reminder after it fires.
#[derive(Clone, Copy, PartialEq, Eq, Structural, Debug)]
pub enum Outcome {
    Reschedule { fire_time: u64 },
    Delete,
}

/// What becomes of a multi-position reminder after it fires.
#[derive(Clone, Copy, PartialEq, Eq, Structural, Debug)]
pub enum MultiOutcome {
    Reschedule { fire_time: u64, position: u32 },
    Delete,
}

// ---------------------------------------------------------------------------
// Scalar intervals
// ---------------------------------------------------------------------------

/// The smallest element of `fire`, `fire + interval`, `fire + 2*interval`,
/// ... that is at or past `now` (equal to `fire` itself when `fire` is not
/// in the past).
pub open spec fn next_occurrence(fire: int, interval: int, now: int) -> int
    decreases (if now - fire >= 0 { now - fire } else { 0 }),
    when interval > 0
{
    if fire >= now {
        fire
    } else {
        next_occurrence(fire + interval, interval, now)
    }
}

/// For a reminder that was due (`fire <= now`), the next occurrence lands
/// in the window `[now, now + interval)` — equivalently, one interval less
/// would still be in the past — and is reached from `fire` by whole
/// intervals.
pub proof fn lemma_next_occurrence_bounds(fire: int, interval: int, now: int)
    requires
        interval > 0,
        fire <= now,
    ensures
        next_occurrence(fire, interval, now) >= now,
        next_occurrence(fire, interval, now) - interval < now,
        exists|k: nat| next_occurrence(fire, interval, now) == fire + #[trigger] (k * interval),
    decreases now - fire,
{
    let t = next_occurrence(fire, interval, now);
    if fire >= now {
        assert(t == fire + 0nat * interval);
    } else if fire + interval >= now {
        assert(next_occurrence(fire + interval, interval, now) == fire + interval);
        assert(t == fire + interval);
        assert(t == fire + 1nat * interval);
    } else {
        lemma_next_occurrence_bounds(fire + interval, interval, now);
        let k0 = choose|k: nat|
            next_occurrence(fire + interval, interval, now) == fire + interval + #[trigger] (k
                * interval);
        assert(t == fire + (k0 + 1) * interval) by (nonlinear_arith)
            requires
                t == fire + interval + k0 * interval,
        ;
    }
}

/// What `advance` must return: a one-shot reminder (no interval) is
/// deleted; otherwise the fire time moves to the next occurrence at or
/// past `now`, and a reminder whose next occurrence would exceed its
/// expiry is deleted instead. A rescheduled reminder that was due lands
/// in the window `[now, now + interval)`: one interval less would still
/// be in the past.
pub open spec fn advance_ok(
    r: Outcome,
    fire_time: u64,
    interval: Option<u64>,
    expires_at: Option<u64>,
    now: u64,
) -> bool {
    &&& (interval is None ==> r is Delete)
    &&& (interval matches Some(i) ==> {
        let t = next_occurrence(fire_time as int, i as int, now as int);
        match r {
            Outcome::Reschedule { fire_time: t2 } => t2 == t && (expires_at matches Some(e) ==> t
                <= e),
            Outcome::Delete => expires_at matches Some(e) && t > e,
        }
    })
    &&& (match (interval, r) {
        (Some(i), Outcome::Reschedule { fire_time: t2 }) => fire_time <= now ==> t2 >= now && t2
            as int - i < now,
        _ => true,
    })
}

/// Advances a fired reminder under the scalar-interval policy.
pub fn advance(fire_time: u64, interval: Option<u64>, expires_at: Option<u64>, now: u64) -> (r:
    Outcome)
    requires
        interval matches Some(i) ==> 0 < i && now + i <= u64::MAX,
    ensures
        advance_ok(r, fire_time, interval, expires_at, now),
{
    match interval {
        None => Outcome::Delete,
        Some(i) => {
            let mut t = fire_time;
            while t < now
                invariant
                    0 < i,
                    now + i <= u64::MAX,
                    next_occurrence(fire_time as int, i as int, now as int) == next_occurrence(
                        t as int,
                        i as int,
                        now as int,
                    ),
                decreases now + i - t,
            {
                t = t + i;
            }
            proof {
                if fire_time <= now {
                    lemma_next_occurrence_bounds(fire_time as int, i as int, now as int);
                }
            }
            match expires_at {
                Some(e) => {
                    if t > e {
                        Outcome::Delete
                    } else {
                        Outcome::Reschedule { fire_time: t }
                    }
                },
                None => Outcome::Reschedule { fire_time: t },
            }
        },
    }
}

// ---------------------------------------------------------------------------
// Multi-position periods
// ---------------------------------------------------------------------------

/// The period consumed by a step taken at cursor `pos`.
pub open spec fn period_at(periods: Seq<u64>, pos: int) -> int {
    periods[pos % periods.len() as int] as int
}

/// The fire time after `k` single-period steps from `(fire, pos)`.
pub open spec fn time_after(fire: int, pos: int, periods: Seq<u64>, k: nat) -> int
    decreases k,
{
    if k == 0 || periods.len() == 0 || pos < 0 {
        fire
    } else {
        time_after(fire + period_at(periods, pos), pos + 1, periods, (k - 1) as nat)
    }
}

/// The cursor after `k` steps from `pos`.
pub open spec fn pos_after(pos: int, periods: Seq<u64>, k: nat) -> int {
    if periods.len() == 0 {
        pos
    } else {
        (pos + k) % periods.len() as int
    }
}

pub open spec fn all_zero(periods: Seq<u64>) -> bool {
    forall|i: int| 0 <= i < periods.len() ==> periods[i] == 0
}

/// `k` steps reach the first occurrence at or past `now`.
pub open spec fn first_reach(fire: int, pos: int, periods: Seq<u64>, now: int, k: nat) -> bool {
    &&& time_after(fire, pos, periods, k) >= now
    &&& forall|j: nat| j < k ==> time_after(fire, pos, periods, j) < now
}

/// Adding one step at the end consumes the period at cursor `pos + k`.
proof fn lemma_time_after_snoc(fire: int, pos: int, periods: Seq<u64>, k: nat)
    requires
        periods.len() > 0,
        pos >= 0,
    ensures
        time_after(fire, pos, periods, k + 1) == time_after(fire, pos, periods, k) + period_at(
            periods,
            pos + k,
        ),
    decreases k,
{
    if k == 0 {
        assert(time_after(fire + period_at(periods, pos), pos + 1, periods, 0) == fire
            + period_at(periods, pos));
        assert(time_after(fire, pos, periods, 1) == fire + period_at(periods, pos));
    } else {
        lemma_time_after_snoc(fire + period_at(periods, pos), pos + 1, periods, (k - 1) as nat);
        assert(time_after(fire, pos, periods, k + 1) == time_after(
            fire + period_at(periods, pos),
            pos + 1,
            periods,
            k,
        ));
        assert(time_after(fire, pos, periods, k) == time_after(
            fire + period_at(periods, pos),
            pos + 1,
            periods,
            (k - 1) as nat,
        ));
    }
}

/// A full cycle of zero periods starting anywhere means every period is
/// zero.
proof fn lemma_cycle_covers(periods: Seq<u64>, pos: int)
    requires
        periods.len() > 0,
        0 <= pos < periods.len(),
        forall|d: int|
            0 <= d < periods.len() ==> periods[#[trigger] ((pos + d) % periods.len() as int)]
                == 0,
    ensures
        all_zero(periods),
{
    let len = periods.len() as int;
    assert forall|i: int| 0 <= i < periods.len() implies periods[i] == 0 by {
        let d = if i >= pos {
            i - pos
        } else {
            i - pos + len
        };
        assert(0 <= d < len);
        if i >= pos {
            assert(pos + d == i);
            lemma_small_mod(i as nat, len as nat);
            assert((pos + d) % len == i);
        } else {
            assert(pos + d == i + len);
            lemma_mod_multiples_vanish(1, i, len);
            assert((len * 1 + i) % len == i % len);
            lemma_small_mod(i as nat, len as nat);
            assert((pos + d) % len == i);
        }
        assert(periods[(pos + d) % len] == 0);
    }
}

/// Reducing the base of a sum modulo `m` first does not change the sum's
/// residue.
proof fn lemma_mod_shift(base: int, e: int, m: int)
    requires
        m > 0,
        base >= 0,
        e >= 0,
    ensures
        (base % m + e) % m == (base + e) % m,
{
    lemma_add_mod_noop(base, e, m);
    lemma_add_mod_noop_right(base % m, e, m);
}

/// Steps that consume zero periods leave the fire time where it was.
proof fn lemma_zero_steps(
    f0: int,
    p0: int,
    periods: Seq<u64>,
    steps: nat,
    d: int,
    now: int,
    t: int,
)
    requires
        periods.len() > 0,
        p0 >= 0,
        0 <= d,
        t == time_after(f0, p0, periods, steps),
        t < now,
        forall|j: nat| j < steps ==> time_after(f0, p0, periods, j) < now,
        forall|e: int|
            0 <= e < d ==> periods[#[trigger] ((p0 + steps + e) % periods.len() as int)] == 0,
    ensures
        time_after(f0, p0, periods, steps + d as nat) == t,
        forall|j: nat| j < steps + d as nat ==> time_after(f0, p0, periods, j) < now,
    decreases d,
{
    if d > 0 {
        lemma_time_after_snoc(f0, p0, periods, steps);
        assert(periods[(p0 + steps + 0) % periods.len() as int] == 0);
        assert(period_at(periods, p0 + steps) == 0);
        assert(time_after(f0, p0, periods, steps + 1) == t);
        assert forall|e: int| 0 <= e < d - 1 implies periods[#[trigger] ((p0 + (steps + 1) + e)
            % periods.len() as int)] == 0 by {
            assert(periods[(p0 + steps + (e + 1)) % periods.len() as int] == 0);
        }
        lemma_zero_steps(f0, p0, periods, steps + 1, d - 1, now, t);
    }
}

/// The distance from cursor `pos` to the next positive period, scanning
/// cyclically.
fn next_positive(periods: &Vec<u64>, pos: usize) -> (d: usize)
    requires
        periods@.len() > 0,
        periods@.len() <= 0x7fff_ffff,
        (pos as int) < periods@.len(),
        !all_zero(periods@),
    ensures
        (d as int) < periods@.len(),
        periods@[((pos + d) as int) % (periods@.len() as int)] > 0,
        forall|e: int|
            0 <= e < d ==> periods@[#[trigger] (((pos as int) + e) % (periods@.len() as int))]
                == 0,
{
    let len = periods.len();
    let mut d: usize = 0;
    while d < len
        invariant
            0 <= d <= len,
            len == periods@.len(),
            len <= 0x7fff_ffff,
            (pos as int) < len,
            forall|e: int|
                0 <= e < d ==> periods@[#[trigger] (((pos as int) + e) % (len as int))] == 0,
        decreases len - d,
    {
        let idx = (pos + d) % len;
        if periods[idx] > 0 {
            return d;
        }
        d += 1;
    }
    proof {
        lemma_cycle_covers(periods@, pos as int);
        assert(false);
    }
    0
}

/// What `advance_multi` must return: the fire time after the first run
/// of steps that reaches `now`, with the cursor moved accordingly; or
/// deletion, when the sequence cannot make progress or the next
/// occurrence would exceed the expiry.
pub open spec fn advance_multi_ok(
    r: MultiOutcome,
    fire_time: u64,
    position: u32,
    periods: Seq<u64>,
    expires_at: Option<u64>,
    now: u64,
) -> bool {
    match r {
        MultiOutcome::Delete => (fire_time < now && all_zero(periods)) || (exists|k: nat|
            {
                &&& first_reach(fire_time as int, position as int, periods, now as int, k)
                &&& (expires_at matches Some(e) && time_after(
                    fire_time as int,
                    position as int,
                    periods,
                    k,
                ) > e)
            }),
        MultiOutcome::Reschedule { fire_time: t, position: q } => {
            &&& exists|k: nat|
                {
                    &&& first_reach(fire_time as int, position as int, periods, now as int, k)
                    &&& t == time_after(fire_time as int, position as int, periods, k)
                    &&& q == pos_after(position as int, periods, k)
                }
            &&& (expires_at matches Some(e) ==> t <= e)
        },
    }
}

/// Advances a fired multi-position reminder: steps consume the periods
/// cyclically from the position cursor until the fire time is at or past
/// `now`. A sequence that cannot make progress, or a next occurrence past
/// the expiry, deletes the reminder. The returned position cursor is
/// always reduced modulo the sequence length.
pub fn advance_multi(
    fire_time: u64,
    position: u32,
    periods: &Vec<u64>,
    expires_at: Option<u64>,
    now: u64,
) -> (r: MultiOutcome)
    requires
        now < 0x4000_0000_0000_0000,
        forall|i: int| 0 <= i < periods@.len() ==> periods@[i] < 0x4000_0000_0000_0000,
        periods@.len() <= 0x7fff_ffff,
    ensures
        advance_multi_ok(r, fire_time, position, periods@, expires_at, now),
{
    let len = periods.len();
    let ghost p0 = position as int;
    let ghost f0 = fire_time as int;
    if now <= fire_time {
        proof {
            assert(first_reach(f0, p0, periods@, now as int, 0));
        }
        let q = if len > 0 {
            (position as usize % len) as u32
        } else {
            position
        };
        proof {
            if len > 0 {
                assert(q as int == pos_after(p0, periods@, 0));
            }
        }
        proof {
            let k0: nat = 0;
            assert(first_reach(f0, p0, periods@, now as int, k0));
            assert(fire_time as int == time_after(f0, p0, periods@, k0));
            assert(q as int == pos_after(p0, periods@, k0));
        }
        match expires_at {
            Some(e) => {
                if fire_time > e {
                    return MultiOutcome::Delete;
                }
            },
            None => {},
        }
        return MultiOutcome::Reschedule { fire_time, position: q };
    }
    // The reminder is in the past and must make progress.
    let mut any_positive = false;
    let mut i: usize = 0;
    while i < len
        invariant
            0 <= i <= len,
            len == periods@.len(),
            any_positive == exists|j: int| 0 <= j < i && periods@[j] > 0,
        decreases len - i,
    {
        if periods[i] > 0 {
            proof {
                assert(0 <= i < i + 1 && periods@[i as int] > 0);
            }
            any_positive = true;
        }
        i += 1;
    }
    if !any_positive {
        assert(all_zero(periods@));
        return MultiOutcome::Delete;
    }
    assert(len > 0);
    let mut t = fire_time;
    let mut pos: usize = position as usize % len;
    let mut steps: Ghost<nat> = Ghost(0nat);
    proof {
        assert(pos as int == pos_after(p0, periods@, 0));
    }
    while t < now
        invariant
            len == periods@.len(),
            0 < len <= 0x7fff_ffff,
            !all_zero(periods@),
            now < 0x4000_0000_0000_0000,
            forall|i: int| 0 <= i < periods@.len() ==> periods@[i] < 0x4000_0000_0000_0000,
            (pos as int) < len,
            p0 == position as int,
            f0 == fire_time as int,
            t as int == time_after(f0, p0, periods@, steps@),
            pos as int == (p0 + steps@) % (len as int),
            forall|j: nat| j < steps@ ==> time_after(f0, p0, periods@, j) < now,
        decreases now + 0x4000_0000_0000_0000 - t,
    {
        let ghost l = len as int;
        let d = next_positive(periods, pos);
        let idx = (pos + d) % len;
        let p = periods[idx];
        proof {
            // Convert the zero-period facts to absolute cursor positions,
            // walk the zero steps, then take the positive step.
            assert forall|e: int| 0 <= e < d implies periods@[#[trigger] ((p0 + steps@ + e)
                % l)] == 0 by {
                lemma_mod_shift(p0 + steps@, e, l);
                assert(((pos as int) + e) % l == (p0 + steps@ + e) % l);
            }
            lemma_zero_steps(f0, p0, periods@, steps@, d as int, now as int, t as int);
            lemma_time_after_snoc(f0, p0, periods@, steps@ + d as nat);
            lemma_mod_shift(p0 + steps@, d as int, l);
            assert(period_at(periods@, p0 + steps@ + d as int) == p as int);
            assert(time_after(f0, p0, periods@, steps@ + d as nat + 1) == t as int + p as int);
        }
        let new_pos = (idx + 1) % len;
        proof {
            lemma_mod_shift(pos as int + d, 1, l);
            assert((idx as int + 1) % l == ((pos as int) + d + 1) % l);
            lemma_mod_shift(p0 + steps@, d as int + 1, l);
            assert(((pos as int) + (d as int + 1)) % l == (p0 + steps@ + d + 1) % l);
            assert(new_pos as int == (p0 + (steps@ + d as nat + 1)) % l);
        }
        t = t + p;
        pos = new_pos;
        proof {
            steps@ = steps@ + d as nat + 1;
        }
    }
    let q = pos as u32;
    proof {
        assert(first_reach(f0, p0, periods@, now as int, steps@));
        assert(q as int == pos_after(p0, periods@, steps@));
    }
    match expires_at {
        Some(e) => {
            if t > e {
                return MultiOutcome::Delete;
            }
        },
        None => {},
    }
    MultiOutcome::Reschedule { fire_time: t, position: q }
}

} // verus!
