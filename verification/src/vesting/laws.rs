//! Properties of vesting schedules and claims.
use vstd::prelude::*;
use vstd::arithmetic::div_mod::{lemma_div_is_ordered, lemma_div_by_multiple};
use vstd::arithmetic::mul::lemma_mul_inequality;
use crate::vesting::{EmployeeAccount, ErrorCode, vested_amount, claim, schedule_after};

verus! {

/// A schedule as a company means it: a start before the end, the cliff not
/// before the start, a non-negative total whose linear release cannot
/// overflow, and a withdrawn amount between zero and the total.
pub open spec fn sound_schedule(a: EmployeeAccount) -> bool {
    &&& a.start_time < a.end_time
    &&& a.start_time <= a.cliff_time
    &&& 0 <= a.total_amount
    &&& a.end_time - a.start_time <= i64::MAX
    &&& a.total_amount * (a.end_time - a.start_time) <= i64::MAX
    &&& 0 <= a.total_withdrawn <= a.total_amount
}

/// From the start on, a sound schedule has vested between nothing and its
/// total: the elapsed share of the total, rounded down, before the end, and
/// all of it from the end on.
pub proof fn lemma_vested_within_total(a: EmployeeAccount, now: i64)
    requires
        sound_schedule(a),
        a.start_time <= now,
    ensures
        vested_amount(a, now) matches Some(v) && 0 <= v <= a.total_amount,
        now < a.end_time ==> vested_amount(a, now) == Some(
            a.total_amount * (now - a.start_time) / (a.end_time - a.start_time),
        ),
{
    if now < a.end_time {
        let e = now - a.start_time;
        let d = a.end_time - a.start_time;
        let t = a.total_amount as int;
        lemma_mul_inequality(e, d, t);
        assert(0 <= t * e) by (nonlinear_arith)
            requires t >= 0, e >= 0;
        assert(t * e == e * t) by (nonlinear_arith);
        assert(t * d == d * t) by (nonlinear_arith);
        lemma_div_is_ordered(t * e, t * d, d);
        lemma_div_by_multiple(t, d);
        lemma_div_is_ordered(0, t * e, d);
        assert(t * d / d == t) by (nonlinear_arith)
            requires d > 0;
    }
}

/// Vesting never goes backwards: from the start on, a later time has vested
/// at least as much as an earlier one.
pub proof fn lemma_vesting_monotone(a: EmployeeAccount, t1: i64, t2: i64)
    requires
        sound_schedule(a),
        a.start_time <= t1 <= t2,
    ensures
        vested_amount(a, t1) matches Some(v1) && vested_amount(a, t2) matches Some(v2) && v1 <= v2,
{
    lemma_vested_within_total(a, t1);
    lemma_vested_within_total(a, t2);
    if t2 < a.end_time {
        let d = a.end_time - a.start_time;
        let t = a.total_amount as int;
        let e1 = t1 - a.start_time;
        let e2 = t2 - a.start_time;
        lemma_mul_inequality(e1, e2, t);
        assert(t * e1 == e1 * t && t * e2 == e2 * t) by (nonlinear_arith);
        lemma_div_is_ordered(t * e1, t * e2, d);
    }
}

/// A claim on a sound schedule never aborts; when it goes through, what was
/// withdrawn becomes exactly what has vested, which never exceeds the total,
/// so the schedule stays sound, and the transferred amount is the vested
/// amount less what was withdrawn before.
pub proof fn lemma_claim_never_exceeds_total(a: EmployeeAccount, now: i64)
    requires
        sound_schedule(a),
    ensures
        claim(a, now) is Some,
        claim(a, now) matches Some(Ok((x, a2))) ==> {
            &&& vested_amount(a, now) matches Some(v) && a2.total_withdrawn == v
                && x == v - a.total_withdrawn
            &&& a2.total_withdrawn <= a.total_amount
            &&& sound_schedule(a2)
        },
{
    if now >= a.cliff_time {
        lemma_vested_within_total(a, now);
    }
}

/// Claiming twice at the same moment gives nothing the second time: the
/// second claim is refused with `NothingToClaim`.
pub proof fn lemma_second_claim_gets_nothing(a: EmployeeAccount, now: i64)
    requires
        sound_schedule(a),
    ensures
        claim(a, now) matches Some(Ok((_, a2))) ==> claim(a2, now) == Some(
            Err::<(u64, EmployeeAccount), ErrorCode>(ErrorCode::NothingToClaim),
        ),
{
    lemma_claim_never_exceeds_total(a, now);
    if now >= a.cliff_time {
        lemma_vested_within_total(a, now);
    }
}

/// Two successive claims together transfer what has vested by the second one
/// less what had been withdrawn before the first, as one claim at the second
/// time would.
pub proof fn lemma_claims_add_up(a: EmployeeAccount, t1: i64, t2: i64)
    requires
        sound_schedule(a),
        t1 <= t2,
    ensures
        claim(a, t1) matches Some(Ok((x1, a1))) ==> (claim(a1, t2) matches Some(Ok((x2, a2))) ==> {
            &&& vested_amount(a, t2) matches Some(v2) && x1 + x2 == v2 - a.total_withdrawn
                && a2.total_withdrawn == v2
        }),
{
    lemma_claim_never_exceeds_total(a, t1);
    if let Some(Ok((x1, a1))) = claim(a, t1) {
        lemma_vesting_monotone(a, t1, t2);
        lemma_claim_never_exceeds_total(a1, t2);
        assert(vested_amount(a1, t2) == vested_amount(a, t2));
    }
}

/// A claim changes nothing of the schedule but what was withdrawn, whatever
/// its outcome.
pub proof fn lemma_claim_changes_only_withdrawn(a: EmployeeAccount, now: i64)
    ensures
        schedule_after(claim(a, now), a) == (EmployeeAccount {
            total_withdrawn: schedule_after(claim(a, now), a).total_withdrawn,
            ..a
        }),
{
}

/// A claim that leaves nothing to claim is refused: when what has vested is
/// no more than what was withdrawn, the claim gets `NothingToClaim` and the
/// schedule is unchanged.
pub proof fn lemma_nothing_vested_beyond_withdrawn_is_refused(a: EmployeeAccount, now: i64)
    requires
        a.cliff_time <= now,
        vested_amount(a, now) matches Some(v) && v <= a.total_withdrawn,
    ensures
        claim(a, now) == Some(Err::<(u64, EmployeeAccount), ErrorCode>(ErrorCode::NothingToClaim)),
        schedule_after(claim(a, now), a) == a,
{
}

/// From the end time (and the cliff) on, a claim releases everything not yet
/// withdrawn.
pub proof fn lemma_claim_after_end_releases_rest(a: EmployeeAccount, now: i64)
    requires
        sound_schedule(a),
        a.end_time <= now,
        a.cliff_time <= now,
        a.total_withdrawn < a.total_amount,
    ensures
        claim(a, now) == Some(
            Ok::<(u64, EmployeeAccount), ErrorCode>(
                (
                    (a.total_amount - a.total_withdrawn) as u64,
                    EmployeeAccount { total_withdrawn: a.total_amount, ..a },
                ),
            ),
        ),
{
}

/// Between the start and the end, a claim pays the linear share: what has
/// vested is the total times the time since the start over the schedule's
/// length, rounded down, and the claim does not abort, as long as that
/// product itself fits in an `i64` (whatever the total times the whole
/// length would be). With a non-negative withdrawn amount, the claim is
/// refused with `NothingToClaim` when that share is no more than what was
/// withdrawn, and otherwise pays the difference and records the share as
/// withdrawn.
pub proof fn lemma_claim_pays_linear_share(a: EmployeeAccount, now: i64)
    requires
        a.start_time <= now < a.end_time,
        a.cliff_time <= now,
        a.end_time - a.start_time <= i64::MAX,
        0 <= a.total_amount,
        a.total_amount * (now - a.start_time) <= i64::MAX,
    ensures
        ({
            let v = a.total_amount * (now - a.start_time) / (a.end_time - a.start_time);
            &&& vested_amount(a, now) == Some(v)
            &&& claim(a, now) is Some
            &&& 0 <= a.total_withdrawn ==> claim(a, now) == (if v <= a.total_withdrawn {
                Some(Err::<(u64, EmployeeAccount), ErrorCode>(ErrorCode::NothingToClaim))
            } else {
                Some(
                    Ok::<(u64, EmployeeAccount), ErrorCode>(
                        ((v - a.total_withdrawn) as u64, EmployeeAccount { total_withdrawn: v as i64, ..a }),
                    ),
                )
            })
        }),
{
    let e = now - a.start_time;
    let d = a.end_time - a.start_time;
    let t = a.total_amount as int;
    assert(0 <= t * e) by (nonlinear_arith)
        requires t >= 0, e >= 0;
    lemma_div_is_ordered(0, t * e, d);
    assert(t * e / d <= t * e) by (nonlinear_arith)
        requires t * e >= 0, d > 0;
}

/// Before the cliff every claim is refused with `ClaimNotAvailableYet` and
/// changes nothing.
pub proof fn lemma_claim_before_cliff_refused(a: EmployeeAccount, now: i64)
    requires
        now < a.cliff_time,
    ensures
        claim(a, now) == Some(Err::<(u64, EmployeeAccount), ErrorCode>(ErrorCode::ClaimNotAvailableYet)),
{
}

/// Before the start (with the cliff already passed), what has vested is
/// negative: the total times the time left until the start over the
/// schedule's length, rounded toward zero, with its sign flipped; so with a
/// non-negative withdrawn amount such a claim is refused with
/// `NothingToClaim`.
pub proof fn lemma_claim_before_start_refused(a: EmployeeAccount, now: i64)
    requires
        a.cliff_time <= now < a.start_time < a.end_time,
        a.end_time - a.start_time <= i64::MAX,
        a.start_time - now <= i64::MAX,
        0 <= a.total_amount,
        a.total_amount * (a.start_time - now) <= i64::MAX,
        0 <= a.total_withdrawn,
    ensures
        vested_amount(a, now) == Some(
            -(a.total_amount * (a.start_time - now) / (a.end_time - a.start_time)),
        ),
        claim(a, now) == Some(Err::<(u64, EmployeeAccount), ErrorCode>(ErrorCode::NothingToClaim)),
{
    let e = a.start_time - now;
    let d = a.end_time - a.start_time;
    let t = a.total_amount as int;
    assert(0 <= t * e) by (nonlinear_arith)
        requires t >= 0, e >= 0;
    let m = now - a.start_time;
    assert(t * m == -(t * e)) by (nonlinear_arith)
        requires m == -e;
    lemma_div_is_ordered(0, t * e, d);
    assert(t * e / d <= t * e) by (nonlinear_arith)
        requires t * e >= 0, d > 0;
}

/// From the end time on everything has vested, whatever the schedule: a claim
/// (past the cliff, with a non-negative withdrawn amount) pays the total less
/// what was withdrawn and records the total as withdrawn, or is refused with
/// `NothingToClaim` when the total was already withdrawn.
pub proof fn lemma_claim_after_end_pays_rest(a: EmployeeAccount, now: i64)
    requires
        a.end_time <= now,
        a.cliff_time <= now,
        0 <= a.total_withdrawn,
    ensures
        vested_amount(a, now) == Some(a.total_amount as int),
        claim(a, now) == (if a.total_amount <= a.total_withdrawn {
            Some(Err::<(u64, EmployeeAccount), ErrorCode>(ErrorCode::NothingToClaim))
        } else {
            Some(
                Ok::<(u64, EmployeeAccount), ErrorCode>(
                    (
                        (a.total_amount - a.total_withdrawn) as u64,
                        EmployeeAccount { total_withdrawn: a.total_amount, ..a },
                    ),
                ),
            )
        }),
{
}

} // verus!
