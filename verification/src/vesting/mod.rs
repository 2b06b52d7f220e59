//! Token vesting: a company's vesting account, its employees' schedules, and
//! claiming what has vested.
use vstd::prelude::*;
use crate::key::Key;

pub mod laws;

verus! {

/// A company's vesting account: who created it, which mint it pays out and
/// from which treasury token account.
#[derive(Clone, Debug, PartialEq, Eq)]
pub struct VestingAccount {
    pub owner: Key,
    pub mint: Key,
    pub treasury_token_account: Key,
    pub company_name: String,
    /// Bump of the treasury token account's program address.
    pub treasury_bump: u8,
    /// Bump of this account's program address.
    pub bump: u8,
}

/// One employee's schedule: `total_amount` vests linearly from `start_time` to
/// `end_time`, and nothing can be claimed before `cliff_time`.
#[derive(Clone, Copy, Debug, PartialEq, Eq)]
pub struct EmployeeAccount {
    pub beneficiary: Key,
    pub start_time: i64,
    pub end_time: i64,
    pub total_amount: i64,
    pub total_withdrawn: i64,
    pub cliff_time: i64,
    pub vesting_account: Key,
    pub bump: u8,
}

/// Why a claim was refused.
#[derive(Clone, Copy, Debug, PartialEq, Eq)]
pub enum ErrorCode {
    ClaimNotAvailableYet,
    NothingToClaim,
}

impl ErrorCode {
    /// The message that goes with the error.
    pub fn message(&self) -> (r: &'static str)
        ensures
            r@ == (match self {
                ErrorCode::ClaimNotAvailableYet => "Claiming is not available yet."@,
                ErrorCode::NothingToClaim => "There is nothing to claim."@,
            }),
    {
        match self {
            ErrorCode::ClaimNotAvailableYet => "Claiming is not available yet.",
            ErrorCode::NothingToClaim => "There is nothing to claim.",
        }
    }
}

/// Creates a company's vesting account from the addresses and bumps that the
/// instruction's accounts supply.
pub fn create_vesting_account(
    owner: Key,
    mint: Key,
    treasury_token_account: Key,
    company_name: String,
    treasury_bump: u8,
    bump: u8,
) -> (a: VestingAccount)
    ensures
        a.owner == owner,
        a.mint == mint,
        a.treasury_token_account == treasury_token_account,
        a.company_name@ == company_name@,
        a.treasury_bump == treasury_bump,
        a.bump == bump,
{
    VestingAccount { owner, mint, treasury_token_account, company_name, treasury_bump, bump }
}

/// Creates an employee's schedule, with nothing withdrawn yet.
pub fn create_employee_account(
    beneficiary: Key,
    start_time: i64,
    end_time: i64,
    total_amount: i64,
    cliff_time: i64,
    vesting_account: Key,
    bump: u8,
) -> (a: EmployeeAccount)
    ensures
        a == (EmployeeAccount {
            beneficiary,
            start_time,
            end_time,
            total_amount,
            total_withdrawn: 0,
            cliff_time,
            vesting_account,
            bump,
        }),
{
    EmployeeAccount {
        beneficiary,
        start_time,
        end_time,
        total_amount,
        total_withdrawn: 0,
        cliff_time,
        vesting_account,
        bump,
    }
}

/// `x` clamped to the range of `i64`.
pub open spec fn clamp_i64(x: int) -> int {
    if x > i64::MAX {
        i64::MAX as int
    } else if x < i64::MIN {
        i64::MIN as int
    } else {
        x
    }
}

/// Integer division rounding toward zero, as Rust's `/` on signed integers.
pub open spec fn div_toward_zero(x: int, d: int) -> int {
    if x == 0 {
        0
    } else if x > 0 && d > 0 {
        x / d
    } else if x < 0 && d < 0 {
        (x * -1) / (d * -1)
    } else if x < 0 {
        ((x * -1) / d) * -1
    } else {
        (x / (d * -1)) * -1
    }
}

/// What has vested at `now`: all of it from the end time on, before that the
/// elapsed share of the total (elapsed and duration each clamped to `i64`,
/// rounded toward zero); `None` where the program aborts (an overflowing
/// product, a zero duration, or an overflowing quotient).
pub open spec fn vested_amount(a: EmployeeAccount, now: i64) -> Option<int> {
    if now >= a.end_time {
        Some(a.total_amount as int)
    } else {
        let elapsed = clamp_i64(now - a.start_time);
        let duration = clamp_i64(a.end_time - a.start_time);
        let product = a.total_amount * elapsed;
        if product < i64::MIN || product > i64::MAX || duration == 0 {
            None
        } else {
            let q = div_toward_zero(product, duration);
            if q < i64::MIN || q > i64::MAX {
                None
            } else {
                Some(q)
            }
        }
    }
}

/// A claim at `now`: refused before the cliff, refused when nothing is
/// claimable (the vested amount less what was withdrawn, clamped to `i64`, is
/// zero or less), and otherwise that difference is transferred and added to
/// what was withdrawn. `None` where the program aborts on an overflow.
pub open spec fn claim(a: EmployeeAccount, now: i64) -> Option<Result<(u64, EmployeeAccount), ErrorCode>> {
    if now < a.cliff_time {
        Some(Err(ErrorCode::ClaimNotAvailableYet))
    } else {
        match vested_amount(a, now) {
            None => None,
            Some(v) => {
                let c = clamp_i64(v - a.total_withdrawn);
                if c <= 0 {
                    Some(Err(ErrorCode::NothingToClaim))
                } else if a.total_withdrawn + c < i64::MIN || a.total_withdrawn + c > i64::MAX {
                    None
                } else {
                    Some(
                        Ok(
                            (
                                c as u64,
                                EmployeeAccount { total_withdrawn: (a.total_withdrawn + c) as i64, ..a },
                            ),
                        ),
                    )
                }
            },
        }
    }
}

/// What the caller is told of a claim outcome.
pub open spec fn claim_result(o: Option<Result<(u64, EmployeeAccount), ErrorCode>>) -> Option<Result<u64, ErrorCode>> {
    match o {
        Some(Ok(t)) => Some(Ok(t.0)),
        Some(Err(e)) => Some(Err(e)),
        None => None,
    }
}

/// The schedule after the outcome: the new one after a claim, the old one otherwise.
pub open spec fn schedule_after(o: Option<Result<(u64, EmployeeAccount), ErrorCode>>, a: EmployeeAccount) -> EmployeeAccount {
    match o {
        Some(Ok(t)) => t.1,
        _ => a,
    }
}

/// `a - b`, saturating at the bounds of `i64`.
fn saturating_sub_i64(a: i64, b: i64) -> (r: i64)
    ensures
        r == clamp_i64(a - b),
{
    match a.checked_sub(b) {
        Some(d) => d,
        None => if b > 0 {
            i64::MIN
        } else {
            i64::MAX
        },
    }
}

/// Claims what has vested at `now` and not been withdrawn yet.
///
/// Refused with `ClaimNotAvailableYet` before the cliff and with
/// `NothingToClaim` when nothing is claimable; otherwise the claimable amount
/// is added to what was withdrawn and returned, as the amount to transfer from
/// the treasury to the employee.
///
/// `None` stands for the inputs on which the program aborts with an
/// arithmetic overflow or a division by zero; the schedule is then left as
/// it was, as it is after a refusal.
pub fn try_claim_tokens(account: &mut EmployeeAccount, _company_name: u64, now: i64) -> (r: Option<
    Result<u64, ErrorCode>,
>)
    ensures
        r == claim_result(claim(*old(account), now)),
        *final(account) == schedule_after(claim(*old(account), now), *old(account)),
        r matches Some(Ok(x)) ==> x > 0,
{
    if now < account.cliff_time {
        return Some(Err(ErrorCode::ClaimNotAvailableYet));
    }
    let time_since_start = saturating_sub_i64(now, account.start_time);
    let total_vesting_time = saturating_sub_i64(account.end_time, account.start_time);
    let vested_amount = if now >= account.end_time {
        account.total_amount
    } else {
        let product = account.total_amount.checked_mul(time_since_start)?;
        product.checked_div(total_vesting_time)?
    };
    let claimable = saturating_sub_i64(vested_amount, account.total_withdrawn);
    if claimable <= 0 {
        return Some(Err(ErrorCode::NothingToClaim));
    }
    let total_withdrawn = account.total_withdrawn.checked_add(claimable)?;
    account.total_withdrawn = total_withdrawn;
    Some(Ok(claimable as u64))
}

/// Claims what has vested at `now`; see [`try_claim_tokens`]. The inputs on
/// which the program aborts are left out.
pub fn claim_tokens(account: &mut EmployeeAccount, _company_name: u64, now: i64) -> (r: Result<u64, ErrorCode>)
    requires
        claim(*old(account), now) is Some,
    ensures
        claim_result(claim(*old(account), now)) == Some(r),
        *final(account) == schedule_after(claim(*old(account), now), *old(account)),
{
    match try_claim_tokens(account, _company_name, now) {
        Some(r) => r,
        // The precondition rules this arm out.
        None => Err(ErrorCode::NothingToClaim),
    }
}

} // verus!
