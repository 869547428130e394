//! Whole-cycle flows: enrollment, contributions, the round-robin rotation,
//! punishment, the claim phase and teardown.

use funds_cycle_program::cycle::Cycle;
use funds_cycle_program::error::FundCycleError;
use funds_cycle_program::ops;

const ADMIN: u64 = 1;
const KEY: u64 = 100;
const A: u64 = 10;
const B: u64 = 11;
const C: u64 = 12;
const DAY: i64 = 86400;

/// Cohort of three, collateral 100, contribution 30, full payout percentage,
/// one-day interval; everyone enrolled and collateralized.
fn enrolled_cycle() -> Cycle {
    let mut c = Cycle::new(ADMIN, KEY, 100, 30, 1, 3, 100, 0, 0);
    c.add_beneficiary(ADMIN, A, 0).unwrap();
    c.add_beneficiary(ADMIN, B, 0).unwrap();
    c.add_beneficiary(ADMIN, C, 0).unwrap();
    c.deposit_collateral(A).unwrap();
    c.deposit_collateral(B).unwrap();
    c.deposit_collateral(C).unwrap();
    c
}

/// The same cohort with the round-robin pointer standing on slot 0, as it
/// does mid-rotation.
fn mid_rotation_cycle() -> Cycle {
    let mut c = enrolled_cycle();
    c.config.current_index = 0;
    c
}

#[test]
fn initialize_sets_fresh_state() {
    let c = Cycle::new(ADMIN, KEY, 100, 30, 1, 3, 100, 7, 8);
    assert_eq!(c.config.admin, ADMIN);
    assert_eq!(c.config.collateral_amount, 100);
    assert_eq!(c.config.monthly_payout, 30);
    assert_eq!(c.config.payment_interval_days, 1);
    assert_eq!(c.config.max_beneficiaries, 3);
    assert_eq!(c.config.withdraw_percent, 100);
    assert_eq!(c.config.current_index, 0);
    assert_eq!(c.config.bump, 7);
    assert!(!c.config.claimable);
    assert_eq!(c.config.claims_completed, 0);
    assert_eq!(c.vault.config, KEY);
    assert_eq!(c.vault.bump, 8);
    assert_eq!(c.vault_balance, 0);
    assert!(c.get_beneficiary(A).is_none());
}

#[test]
fn enrollment_assigns_sequential_slots() {
    let c = enrolled_cycle();
    assert_eq!(c.get_beneficiary(A).unwrap().index, 0);
    assert_eq!(c.get_beneficiary(B).unwrap().index, 1);
    assert_eq!(c.get_beneficiary(C).unwrap().index, 2);
    assert_eq!(c.config.current_index, 3);
    let a = c.get_beneficiary(A).unwrap();
    assert!(a.collateral_paid);
    assert!(!a.monthly_paid);
    assert!(a.active);
    assert!(!a.collateral_claimed);
    assert_eq!(a.last_payment_ts, 0);
    assert_eq!(a.config, KEY);
    assert_eq!(c.vault_balance, 300);
}

#[test]
fn enrollment_past_capacity_is_refused() {
    let mut c = enrolled_cycle();
    assert_eq!(c.add_beneficiary(ADMIN, 13, 0), Err(FundCycleError::MaxBeneficiariesReached));
    assert_eq!(c.config.current_index, 3);
}

#[test]
fn round_robin_scenario() {
    // Cohort size 3, collateral 100, contribution 30, full payout
    // percentage, one-day interval; pointer on slot 0, vault holding the
    // three collaterals (300).
    let mut c = mid_rotation_cycle();
    assert_eq!(c.vault_balance, 300);

    c.deposit_monthly(A, 0).unwrap();
    assert_eq!(c.vault_balance, 330);
    assert_eq!(c.withdraw(A, DAY), Ok(90)); // pool = 30 * 3 = 90, payout = 90
    assert_eq!(c.vault_balance, 240);
    assert_eq!(c.config.current_index, 1);
    assert!(!c.get_beneficiary(A).unwrap().monthly_paid);

    c.deposit_monthly(B, DAY).unwrap();
    assert_eq!(c.vault_balance, 270);
    assert_eq!(c.withdraw(B, 2 * DAY), Ok(90));
    assert_eq!(c.vault_balance, 180);
    assert_eq!(c.config.current_index, 2);

    c.deposit_monthly(C, 2 * DAY).unwrap();
    assert_eq!(c.vault_balance, 210);
    assert_eq!(c.withdraw(C, 3 * DAY), Ok(90));
    assert_eq!(c.vault_balance, 120);
    // the pointer wraps back to 0 after the full revolution
    assert_eq!(c.config.current_index, 0);

    // after the wrap the pointer stands below the cohort size again, so the
    // claim phase cannot be enabled from here
    assert_eq!(c.enable_claiming(ADMIN), Err(FundCycleError::CycleNotComplete));
}

#[test]
fn withdraw_out_of_turn_changes_nothing() {
    let mut c = mid_rotation_cycle();
    c.deposit_monthly(B, 0).unwrap();
    let before_vault = c.vault_balance;
    let before_b = c.get_beneficiary(B).unwrap();
    let before_config = c.config;
    // slot 0's turn, not slot 1's
    assert_eq!(c.withdraw(B, DAY), Err(FundCycleError::NotYourTurn));
    assert_eq!(c.vault_balance, before_vault);
    assert_eq!(c.get_beneficiary(B).unwrap(), before_b);
    assert_eq!(c.config, before_config);
}

#[test]
fn no_second_withdrawal_without_new_contribution() {
    // cohort of one: the pointer returns to the same slot at once, so the
    // second attempt is stopped by the contribution gate alone
    let mut c = Cycle::new(ADMIN, KEY, 100, 30, 1, 1, 100, 0, 0);
    c.add_beneficiary(ADMIN, A, 0).unwrap();
    c.deposit_collateral(A).unwrap();
    c.config.current_index = 0;
    c.deposit_monthly(A, 0).unwrap();
    assert_eq!(c.withdraw(A, DAY), Ok(30));
    assert_eq!(c.config.current_index, 0);
    assert_eq!(c.withdraw(A, 2 * DAY), Err(FundCycleError::MonthlyNotPaid));
    c.deposit_monthly(A, 2 * DAY).unwrap();
    assert_eq!(c.withdraw(A, 3 * DAY), Ok(30));
}

#[test]
fn withdrawal_too_early_is_refused() {
    let mut c = mid_rotation_cycle();
    c.deposit_monthly(A, 1000).unwrap();
    assert_eq!(c.withdraw(A, 1000 + DAY - 1), Err(FundCycleError::PaymentStillOnTime));
    assert_eq!(c.withdraw(A, 1000 + DAY), Ok(90));
}

#[test]
fn enrollment_alone_completes_the_pointer() {
    // enrollment advances the same pointer withdrawal rotates: after a full
    // cohort enrolls, the pointer stands one past every slot, no slot is on
    // turn, and the claim phase can be enabled at once
    let mut c = enrolled_cycle();
    assert_eq!(c.config.current_index, 3);
    assert!(ops::is_cycle_complete(&c.config));
    c.deposit_monthly(A, 0).unwrap();
    assert_eq!(c.withdraw(A, DAY), Err(FundCycleError::NotYourTurn));
    assert_eq!(c.enable_claiming(ADMIN), Ok(()));
    assert!(c.config.claimable);
}

#[test]
fn claim_latch_sets_once() {
    let mut c = enrolled_cycle();
    assert_eq!(c.enable_claiming(ADMIN), Ok(()));
    assert!(c.config.claimable);
    assert_eq!(c.enable_claiming(ADMIN), Err(FundCycleError::AlreadyClaimable));
    assert!(c.config.claimable);
}

#[test]
fn claim_phase_needs_full_revolution() {
    let mut c = Cycle::new(ADMIN, KEY, 100, 30, 1, 3, 100, 0, 0);
    c.add_beneficiary(ADMIN, A, 0).unwrap();
    assert_eq!(c.config.current_index, 1);
    assert_eq!(c.enable_claiming(ADMIN), Err(FundCycleError::CycleNotComplete));
    assert!(!c.config.claimable);
}

#[test]
fn collateral_round_trip_returns_exact_amount() {
    let mut c = enrolled_cycle();
    // A paid exactly 100 in; after the claim phase opens, A gets exactly
    // 100 back and the vault drops by exactly 100
    c.enable_claiming(ADMIN).unwrap();
    let before = c.vault_balance;
    assert_eq!(c.claim_collateral(A), Ok(100));
    assert_eq!(c.vault_balance, before - 100);
    assert!(c.get_beneficiary(A).unwrap().collateral_claimed);
    assert_eq!(c.config.claims_completed, 1);
    // the claim is one-shot
    assert_eq!(c.claim_collateral(A), Err(FundCycleError::AlreadyClaimed));
    assert_eq!(c.config.claims_completed, 1);
}

#[test]
fn claims_counter_is_monotone_and_bounded() {
    let mut c = enrolled_cycle();
    c.enable_claiming(ADMIN).unwrap();
    assert_eq!(c.config.claims_completed, 0);
    c.claim_collateral(A).unwrap();
    assert_eq!(c.config.claims_completed, 1);
    c.claim_collateral(B).unwrap();
    assert_eq!(c.config.claims_completed, 2);
    c.claim_collateral(C).unwrap();
    assert_eq!(c.config.claims_completed, 3);
    assert!(ops::is_all_claimed(&c.config));
    assert!(c.config.claims_completed <= c.config.max_beneficiaries);
    // every record has claimed; a repeat cannot move the counter
    assert_eq!(c.claim_collateral(A), Err(FundCycleError::AlreadyClaimed));
    assert_eq!(c.config.claims_completed, 3);
}

#[test]
fn claim_before_enablement_is_refused() {
    let mut c = enrolled_cycle();
    assert_eq!(c.claim_collateral(A), Err(FundCycleError::ClaimingNotEnabled));
}

#[test]
fn claim_by_stranger_is_refused() {
    let mut c = enrolled_cycle();
    c.enable_claiming(ADMIN).unwrap();
    assert_eq!(c.claim_collateral(99), Err(FundCycleError::MissingBeneficiaryAccount));
}

#[test]
fn punish_gate_and_permanence() {
    let mut c = enrolled_cycle();
    c.deposit_monthly(A, 1000).unwrap();
    // at or before the due time: still on time
    assert_eq!(c.punish(ADMIN, A, 1000 + DAY), Err(FundCycleError::PaymentStillOnTime));
    assert!(c.get_beneficiary(A).unwrap().active);
    // strictly past the due time: punished
    assert_eq!(c.punish(ADMIN, A, 1000 + DAY + 1), Ok(()));
    assert!(!c.get_beneficiary(A).unwrap().active);
    // permanently blocked from contributing and withdrawing
    assert_eq!(c.deposit_monthly(A, 1000 + 2 * DAY), Err(FundCycleError::InactiveBeneficiary));
    c.config.current_index = 0;
    assert_eq!(c.withdraw(A, 1000 + 2 * DAY), Err(FundCycleError::InactiveBeneficiary));
    // and from reclaiming collateral
    c.config.current_index = 3;
    c.enable_claiming(ADMIN).unwrap();
    assert_eq!(c.claim_collateral(A), Err(FundCycleError::InactiveBeneficiary));
}

#[test]
fn punish_by_non_admin_is_refused() {
    let mut c = enrolled_cycle();
    assert_eq!(c.punish(B, A, 10 * DAY), Err(FundCycleError::Unauthorized));
    assert!(c.get_beneficiary(A).unwrap().active);
}

#[test]
fn full_cycle_teardown() {
    let mut c = enrolled_cycle();
    c.deposit_monthly(A, 0).unwrap(); // vault 330
    assert_eq!(c.exit(ADMIN), Err(FundCycleError::ClaimingNotEnabled));
    c.enable_claiming(ADMIN).unwrap();
    assert_eq!(c.exit(ADMIN), Err(FundCycleError::NotAllClaimed));
    c.claim_collateral(A).unwrap();
    c.claim_collateral(B).unwrap();
    c.claim_collateral(C).unwrap();
    assert_eq!(c.vault_balance, 30);
    assert_eq!(c.exit(B), Err(FundCycleError::Unauthorized));
    // the whole remaining balance goes to the admin
    assert_eq!(c.exit(ADMIN), Ok(30));
    assert_eq!(c.vault_balance, 0);
}

#[test]
fn status_snapshot() {
    let mut c = enrolled_cycle();
    c.enable_claiming(ADMIN).unwrap();
    c.claim_collateral(A).unwrap();
    let status = ops::get_status(&c.config, c.vault_balance);
    assert_eq!(status, (true, 3, 1, 3, 200));
}

#[test]
fn deposit_gates() {
    let mut c = Cycle::new(ADMIN, KEY, 100, 30, 1, 3, 100, 0, 0);
    c.add_beneficiary(ADMIN, A, 0).unwrap();
    // the contribution needs the collateral first
    assert_eq!(c.deposit_monthly(A, 0), Err(FundCycleError::CollateralNotPaid));
    c.deposit_collateral(A).unwrap();
    assert_eq!(c.vault_balance, 100);
    // the collateral is one-shot
    assert_eq!(c.deposit_collateral(A), Err(FundCycleError::CollateralAlreadyPaid));
    assert_eq!(c.vault_balance, 100);
    // the contribution is once per interval
    c.deposit_monthly(A, 500).unwrap();
    assert_eq!(c.get_beneficiary(A).unwrap().last_payment_ts, 500);
    assert_eq!(c.deposit_monthly(A, 600), Err(FundCycleError::AlreadyPaidMonthly));
    assert_eq!(c.get_beneficiary(A).unwrap().last_payment_ts, 500);
    // a stranger has no record to pay against
    assert_eq!(c.deposit_collateral(99), Err(FundCycleError::MissingBeneficiaryAccount));
    assert_eq!(c.deposit_monthly(99, 0), Err(FundCycleError::MissingBeneficiaryAccount));
}

#[test]
fn enrollment_by_non_admin_is_refused() {
    let mut c = Cycle::new(ADMIN, KEY, 100, 30, 1, 3, 100, 0, 0);
    assert_eq!(c.add_beneficiary(B, A, 0), Err(FundCycleError::Unauthorized));
    assert_eq!(c.config.current_index, 0);
    assert!(c.get_beneficiary(A).is_none());
}
