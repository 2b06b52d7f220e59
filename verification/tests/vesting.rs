use lending_vesting::key::Key;
use lending_vesting::vesting::{
    claim_tokens, create_employee_account, create_vesting_account, try_claim_tokens, EmployeeAccount, ErrorCode,
};

fn schedule() -> EmployeeAccount {
    create_employee_account(Key::new([3u8; 32]), 1000, 2000, 1000, 1200, Key::new([4u8; 32]), 254)
}

#[test]
fn creates_vesting_account() {
    let a = create_vesting_account(
        Key::new([1u8; 32]),
        Key::new([2u8; 32]),
        Key::new([5u8; 32]),
        "acme".to_string(),
        253,
        252,
    );
    assert_eq!(a.owner, Key::new([1u8; 32]));
    assert_eq!(a.mint, Key::new([2u8; 32]));
    assert_eq!(a.treasury_token_account, Key::new([5u8; 32]));
    assert_eq!(a.company_name, "acme");
    assert_eq!(a.treasury_bump, 253);
    assert_eq!(a.bump, 252);
}

#[test]
fn creates_employee_account_with_nothing_withdrawn() {
    let a = schedule();
    assert_eq!(a.beneficiary, Key::new([3u8; 32]));
    assert_eq!(a.start_time, 1000);
    assert_eq!(a.end_time, 2000);
    assert_eq!(a.total_amount, 1000);
    assert_eq!(a.total_withdrawn, 0);
    assert_eq!(a.cliff_time, 1200);
    assert_eq!(a.vesting_account, Key::new([4u8; 32]));
    assert_eq!(a.bump, 254);
}

#[test]
fn claim_before_cliff_is_refused() {
    let mut a = schedule();
    assert_eq!(claim_tokens(&mut a, 0, 1199), Err(ErrorCode::ClaimNotAvailableYet));
    assert_eq!(a, schedule());
}

#[test]
fn claims_linear_share() {
    let mut a = schedule();
    assert_eq!(claim_tokens(&mut a, 0, 1500), Ok(500));
    assert_eq!(a.total_withdrawn, 500);
    assert_eq!(claim_tokens(&mut a, 0, 1750), Ok(250));
    assert_eq!(a.total_withdrawn, 750);
}

#[test]
fn claim_at_cliff_rounds_down() {
    let mut a = EmployeeAccount { total_amount: 7, ..schedule() };
    assert_eq!(claim_tokens(&mut a, 0, 1200), Ok(1));
    assert_eq!(a.total_withdrawn, 1);
}

#[test]
fn second_claim_at_same_time_gets_nothing() {
    let mut a = schedule();
    assert_eq!(claim_tokens(&mut a, 0, 1500), Ok(500));
    assert_eq!(claim_tokens(&mut a, 0, 1500), Err(ErrorCode::NothingToClaim));
    assert_eq!(a.total_withdrawn, 500);
}

#[test]
fn claim_after_end_releases_rest() {
    let mut a = schedule();
    assert_eq!(claim_tokens(&mut a, 0, 1300), Ok(300));
    assert_eq!(claim_tokens(&mut a, 0, 5000), Ok(700));
    assert_eq!(a.total_withdrawn, 1000);
    assert_eq!(claim_tokens(&mut a, 0, 6000), Err(ErrorCode::NothingToClaim));
}

#[test]
fn claims_add_up_to_vested() {
    let mut a = schedule();
    let x1 = claim_tokens(&mut a, 0, 1333).unwrap();
    let x2 = claim_tokens(&mut a, 0, 1777).unwrap();
    assert_eq!(x1 + x2, 777);
    assert_eq!(a.total_withdrawn, 777);
}

#[test]
fn over_withdrawn_schedule_is_refused() {
    let before = EmployeeAccount { total_withdrawn: 800, ..schedule() };
    let mut a = before;
    assert_eq!(claim_tokens(&mut a, 0, 1500), Err(ErrorCode::NothingToClaim));
    assert_eq!(a, before);
    assert_eq!(claim_tokens(&mut a, 0, 1900), Ok(100));
    assert_eq!(a.total_withdrawn, 900);
}

#[test]
fn negative_vesting_before_start_is_refused() {
    let before = EmployeeAccount { cliff_time: 500, ..schedule() };
    let mut a = before;
    assert_eq!(claim_tokens(&mut a, 0, 600), Err(ErrorCode::NothingToClaim));
    assert_eq!(a, before);
}

#[test]
fn claim_changes_only_withdrawn() {
    let before = schedule();
    let mut a = before;
    assert_eq!(claim_tokens(&mut a, 0, 1400), Ok(400));
    assert_eq!(a, EmployeeAccount { total_withdrawn: 400, ..before });
}

#[test]
fn zero_duration_schedule_aborts_before_end() {
    let mut a = EmployeeAccount { start_time: 1000, end_time: 1000, cliff_time: 0, ..schedule() };
    assert_eq!(try_claim_tokens(&mut a, 0, 900), None);
    assert_eq!(a.total_withdrawn, 0);
    assert_eq!(claim_tokens(&mut a, 0, 1000), Ok(1000));
}

#[test]
fn overflowing_product_aborts() {
    let mut a = EmployeeAccount { total_amount: i64::MAX, ..schedule() };
    assert_eq!(try_claim_tokens(&mut a, 0, 1500), None);
    assert_eq!(a.total_withdrawn, 0);
}

#[test]
fn elapsed_and_duration_saturate() {
    let mut a = EmployeeAccount {
        start_time: i64::MIN,
        end_time: i64::MAX,
        cliff_time: i64::MIN,
        total_amount: 1,
        ..schedule()
    };
    // Both differences saturate at i64::MAX, so the whole total has vested.
    assert_eq!(claim_tokens(&mut a, 0, 10), Ok(1));
}

#[test]
fn error_messages() {
    assert_eq!(ErrorCode::ClaimNotAvailableYet.message(), "Claiming is not available yet.");
    assert_eq!(ErrorCode::NothingToClaim.message(), "There is nothing to claim.");
}
