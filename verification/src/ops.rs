//! The cycle controller: the operation set that mutates configuration,
//! beneficiary and vault state under precondition checks.
//!
//! Each operation takes the records it names, the caller's authenticated
//! identity (`signer`), and — where time matters — the clock reading `now`.
//! Value movement is reported, not performed: an operation that moves funds
//! into the vault adds to the passed vault balance, and one that pays out
//! subtracts and returns the amount the ledger must transfer. Every
//! operation either applies all of its effects or returns an error and
//! changes nothing.
//!
//! For each fallible operation a `..._check` spec function states, in the
//! order the checks are made, which error the operation returns, if any:
//! the operation succeeds exactly when its check function returns `None`.

use vstd::prelude::*;

use crate::error::FundCycleError;
use crate::state::BeneficiaryAccount;
use crate::state::ConfigAccount;
use crate::state::VaultAccount;
use crate::state::next_index;
use crate::state::payment_due_ts;
use crate::state::payout_amount;
use crate::state::payout_numerator;
use crate::state::pool_amount;

verus! {

/// Creates the configuration and its vault record.
///
/// The ledger is responsible for allocating the two records at addresses
/// derived from the admin identity (`config_key` is the configuration's
/// derived address) and for rejecting a second cycle for the same admin.
/// No arithmetic validation is performed on the parameters.
pub fn initialize(
    admin: u64,
    config_key: u64,
    collateral_amount: u64,
    monthly_payout: u64,
    payment_interval_days: u16,
    max_beneficiaries: u8,
    withdraw_percent: u8,
    config_bump: u8,
    vault_bump: u8,
) -> (r: (ConfigAccount, VaultAccount))
    ensures
        r.0 == (ConfigAccount {
            admin,
            collateral_amount,
            monthly_payout,
            payment_interval_days,
            withdraw_percent,
            max_beneficiaries,
            current_index: 0,
            bump: config_bump,
            claimable: false,
            claims_completed: 0,
        }),
        r.1 == (VaultAccount { config: config_key, bump: vault_bump }),
{
    let config = ConfigAccount {
        admin,
        collateral_amount,
        monthly_payout,
        payment_interval_days,
        withdraw_percent,
        max_beneficiaries,
        current_index: 0,
        bump: config_bump,
        claimable: false,
        claims_completed: 0,
    };
    let vault = VaultAccount { config: config_key, bump: vault_bump };
    (config, vault)
}

/// Which error enrollment returns, if any: the caller must be the admin,
/// and the cohort must not be full.
pub open spec fn add_beneficiary_check(c: ConfigAccount, signer: u64) -> Option<FundCycleError> {
    if signer != c.admin {
        Some(FundCycleError::Unauthorized)
    } else if c.current_index >= c.max_beneficiaries {
        Some(FundCycleError::MaxBeneficiariesReached)
    } else {
        None
    }
}

/// Enrolls `wallet` into the cycle: creates its beneficiary record with the
/// next free slot index and advances the enrollment counter.
///
/// The ledger is responsible for refusing a duplicate record for the same
/// (configuration, wallet) pair; this operation makes no such check.
pub fn add_beneficiary(
    config: &mut ConfigAccount,
    config_key: u64,
    signer: u64,
    wallet: u64,
    bump: u8,
) -> (r: Result<BeneficiaryAccount, FundCycleError>)
    ensures
        match r {
            Ok(b) => {
                &&& add_beneficiary_check(*old(config), signer) is None
                &&& b == (BeneficiaryAccount {
                    config: config_key,
                    wallet,
                    bump,
                    index: old(config).current_index,
                    collateral_paid: false,
                    monthly_paid: false,
                    last_payment_ts: 0,
                    active: true,
                    collateral_claimed: false,
                })
                &&& *final(config) == (ConfigAccount {
                    current_index: (old(config).current_index + 1) as u8,
                    ..*old(config)
                })
            },
            Err(e) => {
                &&& add_beneficiary_check(*old(config), signer) == Some(e)
                &&& *final(config) == *old(config)
            },
        },
{
    if signer != config.admin {
        return Err(FundCycleError::Unauthorized);
    }
    if config.current_index >= config.max_beneficiaries {
        return Err(FundCycleError::MaxBeneficiariesReached);
    }
    let index = config.current_index;
    let beneficiary = BeneficiaryAccount {
        config: config_key,
        wallet,
        bump,
        index,
        collateral_paid: false,
        monthly_paid: false,
        last_payment_ts: 0,
        active: true,
        collateral_claimed: false,
    };
    config.current_index = index + 1;
    Ok(beneficiary)
}

/// Which error a collateral deposit returns, if any: the record must belong
/// to the caller and this configuration, and collateral must not already be
/// paid.
pub open spec fn deposit_collateral_check(
    b: BeneficiaryAccount,
    config_key: u64,
    signer: u64,
) -> Option<FundCycleError> {
    if b.wallet != signer {
        Some(FundCycleError::Unauthorized)
    } else if b.config != config_key {
        Some(FundCycleError::InvalidConfig)
    } else if b.collateral_paid {
        Some(FundCycleError::CollateralAlreadyPaid)
    } else {
        None
    }
}

/// The one-shot collateral deposit: moves `collateral_amount` from the
/// caller's wallet into the vault and marks the record paid.
pub fn deposit_collateral(
    config: &ConfigAccount,
    config_key: u64,
    beneficiary: &mut BeneficiaryAccount,
    vault_balance: &mut u64,
    signer: u64,
) -> (r: Result<(), FundCycleError>)
    requires
        deposit_collateral_check(*old(beneficiary), config_key, signer) is None
            ==> *old(vault_balance) + config.collateral_amount <= u64::MAX,
    ensures
        match r {
            Ok(()) => {
                &&& deposit_collateral_check(*old(beneficiary), config_key, signer) is None
                &&& *final(beneficiary) == (BeneficiaryAccount {
                    collateral_paid: true,
                    ..*old(beneficiary)
                })
                &&& *final(vault_balance) == *old(vault_balance) + config.collateral_amount
            },
            Err(e) => {
                &&& deposit_collateral_check(*old(beneficiary), config_key, signer) == Some(e)
                &&& *final(beneficiary) == *old(beneficiary)
                &&& *final(vault_balance) == *old(vault_balance)
            },
        },
{
    if beneficiary.wallet != signer {
        return Err(FundCycleError::Unauthorized);
    }
    if beneficiary.config != config_key {
        return Err(FundCycleError::InvalidConfig);
    }
    if beneficiary.collateral_paid {
        return Err(FundCycleError::CollateralAlreadyPaid);
    }
    *vault_balance = *vault_balance + config.collateral_amount;
    beneficiary.collateral_paid = true;
    Ok(())
}

/// Which error a monthly deposit returns, if any: the record must belong to
/// the caller and this configuration, collateral must be paid, the
/// beneficiary must be active, and this interval's contribution must not
/// already be paid.
pub open spec fn deposit_monthly_check(
    b: BeneficiaryAccount,
    config_key: u64,
    signer: u64,
) -> Option<FundCycleError> {
    if b.wallet != signer {
        Some(FundCycleError::Unauthorized)
    } else if b.config != config_key {
        Some(FundCycleError::InvalidConfig)
    } else if !b.collateral_paid {
        Some(FundCycleError::CollateralNotPaid)
    } else if !b.active {
        Some(FundCycleError::InactiveBeneficiary)
    } else if b.monthly_paid {
        Some(FundCycleError::AlreadyPaidMonthly)
    } else {
        None
    }
}

/// The recurring contribution: moves `monthly_payout` from the caller's
/// wallet into the vault, marks the interval paid, and records `now` as the
/// time of the most recent accepted contribution.
pub fn deposit_monthly(
    config: &ConfigAccount,
    config_key: u64,
    beneficiary: &mut BeneficiaryAccount,
    vault_balance: &mut u64,
    signer: u64,
    now: i64,
) -> (r: Result<(), FundCycleError>)
    requires
        deposit_monthly_check(*old(beneficiary), config_key, signer) is None
            ==> *old(vault_balance) + config.monthly_payout <= u64::MAX,
    ensures
        match r {
            Ok(()) => {
                &&& deposit_monthly_check(*old(beneficiary), config_key, signer) is None
                &&& *final(beneficiary) == (BeneficiaryAccount {
                    monthly_paid: true,
                    last_payment_ts: now,
                    ..*old(beneficiary)
                })
                &&& *final(vault_balance) == *old(vault_balance) + config.monthly_payout
            },
            Err(e) => {
                &&& deposit_monthly_check(*old(beneficiary), config_key, signer) == Some(e)
                &&& *final(beneficiary) == *old(beneficiary)
                &&& *final(vault_balance) == *old(vault_balance)
            },
        },
{
    if beneficiary.wallet != signer {
        return Err(FundCycleError::Unauthorized);
    }
    if beneficiary.config != config_key {
        return Err(FundCycleError::InvalidConfig);
    }
    if !beneficiary.collateral_paid {
        return Err(FundCycleError::CollateralNotPaid);
    }
    if !beneficiary.active {
        return Err(FundCycleError::InactiveBeneficiary);
    }
    if beneficiary.monthly_paid {
        return Err(FundCycleError::AlreadyPaidMonthly);
    }
    *vault_balance = *vault_balance + config.monthly_payout;
    beneficiary.monthly_paid = true;
    beneficiary.last_payment_ts = now;
    Ok(())
}

/// Which error a withdrawal returns, if any, in check order: ownership and
/// turn, the paid contribution, a non-empty cohort, activity, the elapsed
/// interval, the two overflow checks on the payout computation, a positive
/// payout, and a sufficient vault balance.
pub open spec fn withdraw_check(
    c: ConfigAccount,
    b: BeneficiaryAccount,
    vault_balance: u64,
    config_key: u64,
    signer: u64,
    now: i64,
) -> Option<FundCycleError> {
    if b.wallet != signer {
        Some(FundCycleError::Unauthorized)
    } else if b.config != config_key {
        Some(FundCycleError::InvalidConfig)
    } else if b.index != c.current_index {
        Some(FundCycleError::NotYourTurn)
    } else if !b.monthly_paid {
        Some(FundCycleError::MonthlyNotPaid)
    } else if c.max_beneficiaries == 0 {
        Some(FundCycleError::InvalidConfig)
    } else if !b.active {
        Some(FundCycleError::InactiveBeneficiary)
    } else if (now as int) < payment_due_ts(c, b) {
        Some(FundCycleError::PaymentStillOnTime)
    } else if pool_amount(c) > u64::MAX {
        Some(FundCycleError::MathOverflow)
    } else if payout_numerator(c) > u64::MAX {
        Some(FundCycleError::MathOverflow)
    } else if payout_amount(c) == 0 {
        Some(FundCycleError::NoFundsAvailable)
    } else if (vault_balance as int) < payout_amount(c) {
        Some(FundCycleError::InsufficientVaultBalance)
    } else {
        None
    }
}

/// The round-robin payout. On success the returned amount — `withdraw_percent`
/// percent of one round's pool, truncated — leaves the vault for the
/// caller's wallet, the caller's contribution flag resets (the next
/// interval must be paid again), and the round-robin pointer advances by
/// one, wrapping at the cohort size. This is the only operation that
/// advances the pointer.
pub fn withdraw(
    config: &mut ConfigAccount,
    config_key: u64,
    beneficiary: &mut BeneficiaryAccount,
    vault_balance: &mut u64,
    signer: u64,
    now: i64,
) -> (r: Result<u64, FundCycleError>)
    ensures
        match r {
            Ok(amount) => {
                &&& withdraw_check(
                    *old(config),
                    *old(beneficiary),
                    *old(vault_balance),
                    config_key,
                    signer,
                    now,
                ) is None
                &&& amount == payout_amount(*old(config))
                &&& *final(config) == (ConfigAccount {
                    current_index: next_index(*old(config)) as u8,
                    ..*old(config)
                })
                &&& *final(beneficiary) == (BeneficiaryAccount {
                    monthly_paid: false,
                    ..*old(beneficiary)
                })
                &&& *final(vault_balance) == *old(vault_balance) - amount
            },
            Err(e) => {
                &&& withdraw_check(
                    *old(config),
                    *old(beneficiary),
                    *old(vault_balance),
                    config_key,
                    signer,
                    now,
                ) == Some(e)
                &&& *final(config) == *old(config)
                &&& *final(beneficiary) == *old(beneficiary)
                &&& *final(vault_balance) == *old(vault_balance)
            },
        },
{
    if beneficiary.wallet != signer {
        return Err(FundCycleError::Unauthorized);
    }
    if beneficiary.config != config_key {
        return Err(FundCycleError::InvalidConfig);
    }
    if beneficiary.index != config.current_index {
        return Err(FundCycleError::NotYourTurn);
    }
    if !beneficiary.monthly_paid {
        return Err(FundCycleError::MonthlyNotPaid);
    }
    if config.max_beneficiaries == 0 {
        return Err(FundCycleError::InvalidConfig);
    }
    if !beneficiary.active {
        return Err(FundCycleError::InactiveBeneficiary);
    }
    // The due time is computed at i128 width: a u16 day count times 86400
    // added to an i64 timestamp always fits.
    let due: i128 = beneficiary.last_payment_ts as i128
        + (config.payment_interval_days as i128) * 86400;
    if (now as i128) < due {
        return Err(FundCycleError::PaymentStillOnTime);
    }
    let monthly_pool: u64 = match config.monthly_payout.checked_mul(config.max_beneficiaries as u64) {
        Some(p) => p,
        None => {
            return Err(FundCycleError::MathOverflow);
        },
    };
    let payout: u64 = match monthly_pool.checked_mul(config.withdraw_percent as u64) {
        Some(n) => n / 100,
        None => {
            return Err(FundCycleError::MathOverflow);
        },
    };
    if payout == 0 {
        return Err(FundCycleError::NoFundsAvailable);
    }
    if *vault_balance < payout {
        return Err(FundCycleError::InsufficientVaultBalance);
    }
    *vault_balance = *vault_balance - payout;
    beneficiary.monthly_paid = false;
    // Advance the pointer at u64 width so the increment cannot overflow
    // even at the u8 limit; the modulus brings it back below the cohort
    // size.
    config.current_index = ((config.current_index as u64 + 1) % (config.max_beneficiaries as u64)) as u8;
    Ok(payout)
}

/// Which error punishment returns, if any: the caller must be the admin,
/// the record must belong to this configuration, and the target's
/// contribution must actually be overdue (strictly past its due time).
pub open spec fn punish_check(
    c: ConfigAccount,
    b: BeneficiaryAccount,
    config_key: u64,
    signer: u64,
    now: i64,
) -> Option<FundCycleError> {
    if signer != c.admin {
        Some(FundCycleError::Unauthorized)
    } else if b.config != config_key {
        Some(FundCycleError::InvalidConfig)
    } else if now as int <= payment_due_ts(c, b) {
        Some(FundCycleError::PaymentStillOnTime)
    } else {
        None
    }
}

/// Delinquency enforcement: marks an overdue beneficiary inactive. The mark
/// is permanent — no operation reactivates a record — and excludes the
/// beneficiary from future contributions and withdrawals; its slot is not
/// reclaimed or reassigned.
pub fn punish(
    config: &ConfigAccount,
    config_key: u64,
    beneficiary: &mut BeneficiaryAccount,
    signer: u64,
    now: i64,
) -> (r: Result<(), FundCycleError>)
    ensures
        match r {
            Ok(()) => {
                &&& punish_check(*config, *old(beneficiary), config_key, signer, now) is None
                &&& *final(beneficiary) == (BeneficiaryAccount {
                    active: false,
                    ..*old(beneficiary)
                })
            },
            Err(e) => {
                &&& punish_check(*config, *old(beneficiary), config_key, signer, now) == Some(e)
                &&& *final(beneficiary) == *old(beneficiary)
            },
        },
{
    if signer != config.admin {
        return Err(FundCycleError::Unauthorized);
    }
    if beneficiary.config != config_key {
        return Err(FundCycleError::InvalidConfig);
    }
    let due: i128 = beneficiary.last_payment_ts as i128
        + (config.payment_interval_days as i128) * 86400;
    if (now as i128) <= due {
        return Err(FundCycleError::PaymentStillOnTime);
    }
    beneficiary.active = false;
    Ok(())
}

/// Which error enabling the claim phase returns, if any: the caller must be
/// the admin, the latch must not already be set, and the round-robin
/// pointer must have completed a full revolution.
pub open spec fn enable_claiming_check(c: ConfigAccount, signer: u64) -> Option<FundCycleError> {
    if signer != c.admin {
        Some(FundCycleError::Unauthorized)
    } else if c.claimable {
        Some(FundCycleError::AlreadyClaimable)
    } else if c.current_index < c.max_beneficiaries {
        Some(FundCycleError::CycleNotComplete)
    } else {
        None
    }
}

/// Sets the one-way `claimable` latch once the round-robin pointer has
/// reached the cohort size, opening collateral reclamation.
pub fn enable_claiming(config: &mut ConfigAccount, signer: u64) -> (r: Result<(), FundCycleError>)
    ensures
        match r {
            Ok(()) => {
                &&& enable_claiming_check(*old(config), signer) is None
                &&& *final(config) == (ConfigAccount { claimable: true, ..*old(config) })
            },
            Err(e) => {
                &&& enable_claiming_check(*old(config), signer) == Some(e)
                &&& *final(config) == *old(config)
            },
        },
{
    if signer != config.admin {
        return Err(FundCycleError::Unauthorized);
    }
    if config.claimable {
        return Err(FundCycleError::AlreadyClaimable);
    }
    if config.current_index < config.max_beneficiaries {
        return Err(FundCycleError::CycleNotComplete);
    }
    config.claimable = true;
    Ok(())
}

/// Which error collateral reclamation returns, if any, in check order: the
/// vault's back-reference, then — when a record is present — its
/// back-reference and ownership, then the claim latch, a present record,
/// its payment, activity and not-yet-claimed state, a sufficient vault
/// balance, and the claim counter's overflow check.
pub open spec fn claim_collateral_check(
    c: ConfigAccount,
    vault: VaultAccount,
    b_opt: Option<BeneficiaryAccount>,
    vault_balance: u64,
    config_key: u64,
    signer: u64,
) -> Option<FundCycleError> {
    if vault.config != config_key {
        Some(FundCycleError::InvalidConfig)
    } else if b_opt matches Some(b) && b.config != config_key {
        Some(FundCycleError::InvalidConfig)
    } else if b_opt matches Some(b) && b.wallet != signer {
        Some(FundCycleError::InvalidBeneficiaryWallet)
    } else if !c.claimable {
        Some(FundCycleError::ClaimingNotEnabled)
    } else if b_opt is None {
        Some(FundCycleError::MissingBeneficiaryAccount)
    } else if !b_opt->0.collateral_paid {
        Some(FundCycleError::CollateralNotPaid)
    } else if !b_opt->0.active {
        Some(FundCycleError::InactiveBeneficiary)
    } else if b_opt->0.collateral_claimed {
        Some(FundCycleError::AlreadyClaimed)
    } else if vault_balance < c.collateral_amount {
        Some(FundCycleError::InsufficientVaultFunds)
    } else if c.claims_completed == u8::MAX {
        Some(FundCycleError::MathOverflow)
    } else {
        None
    }
}

/// Collateral reclamation: once claiming is enabled, pays the caller's own
/// collateral back out of the vault, exactly once. On success the returned
/// amount — exactly `collateral_amount` — leaves the vault for the caller's
/// wallet, the record is marked claimed, and the claim counter advances.
pub fn claim_collateral(
    config: &mut ConfigAccount,
    config_key: u64,
    vault: &VaultAccount,
    beneficiary: &mut Option<BeneficiaryAccount>,
    vault_balance: &mut u64,
    signer: u64,
) -> (r: Result<u64, FundCycleError>)
    ensures
        match r {
            Ok(amount) => {
                &&& claim_collateral_check(
                    *old(config),
                    *vault,
                    *old(beneficiary),
                    *old(vault_balance),
                    config_key,
                    signer,
                ) is None
                &&& amount == old(config).collateral_amount
                &&& *final(beneficiary) == Some(BeneficiaryAccount {
                    collateral_claimed: true,
                    ..old(beneficiary)->0
                })
                &&& *final(config) == (ConfigAccount {
                    claims_completed: (old(config).claims_completed + 1) as u8,
                    ..*old(config)
                })
                &&& *final(vault_balance) == *old(vault_balance) - amount
            },
            Err(e) => {
                &&& claim_collateral_check(
                    *old(config),
                    *vault,
                    *old(beneficiary),
                    *old(vault_balance),
                    config_key,
                    signer,
                ) == Some(e)
                &&& *final(config) == *old(config)
                &&& *final(beneficiary) == *old(beneficiary)
                &&& *final(vault_balance) == *old(vault_balance)
            },
        },
{
    if vault.config != config_key {
        return Err(FundCycleError::InvalidConfig);
    }
    let b_read: Option<BeneficiaryAccount> = *beneficiary;
    if let Some(b) = b_read {
        if b.config != config_key {
            return Err(FundCycleError::InvalidConfig);
        }
        if b.wallet != signer {
            return Err(FundCycleError::InvalidBeneficiaryWallet);
        }
    }
    if !config.claimable {
        return Err(FundCycleError::ClaimingNotEnabled);
    }
    let b: BeneficiaryAccount = match b_read {
        Some(b) => b,
        None => {
            return Err(FundCycleError::MissingBeneficiaryAccount);
        },
    };
    if !b.collateral_paid {
        return Err(FundCycleError::CollateralNotPaid);
    }
    if !b.active {
        return Err(FundCycleError::InactiveBeneficiary);
    }
    if b.collateral_claimed {
        return Err(FundCycleError::AlreadyClaimed);
    }
    if *vault_balance < config.collateral_amount {
        return Err(FundCycleError::InsufficientVaultFunds);
    }
    let claims: u8 = match config.claims_completed.checked_add(1) {
        Some(n) => n,
        None => {
            return Err(FundCycleError::MathOverflow);
        },
    };
    *vault_balance = *vault_balance - config.collateral_amount;
    *beneficiary = Some(BeneficiaryAccount { collateral_claimed: true, ..b });
    config.claims_completed = claims;
    Ok(config.collateral_amount)
}

/// Which error teardown returns, if any: the caller must be the admin,
/// claiming must be enabled, every beneficiary must have claimed (the
/// counter must have reached the cohort size exactly), and the vault's
/// back-reference must match.
pub open spec fn exit_check(
    c: ConfigAccount,
    vault: VaultAccount,
    config_key: u64,
    signer: u64,
) -> Option<FundCycleError> {
    if signer != c.admin {
        Some(FundCycleError::Unauthorized)
    } else if !c.claimable {
        Some(FundCycleError::ClaimingNotEnabled)
    } else if c.claims_completed < c.max_beneficiaries {
        Some(FundCycleError::NotAllClaimed)
    } else if vault.config != config_key {
        Some(FundCycleError::InvalidConfig)
    } else if c.claims_completed != c.max_beneficiaries {
        Some(FundCycleError::NotAllClaimed)
    } else {
        None
    }
}

/// Cycle termination: once every beneficiary has claimed, drains the
/// vault's entire remaining balance to the admin. On success the returned
/// amount is exactly the prior vault balance and the vault is empty; the
/// ledger then destroys the configuration and vault records (beneficiary
/// records persist as an audit trail).
pub fn exit(
    config: &ConfigAccount,
    config_key: u64,
    vault: &VaultAccount,
    vault_balance: &mut u64,
    signer: u64,
) -> (r: Result<u64, FundCycleError>)
    ensures
        match r {
            Ok(amount) => {
                &&& exit_check(*config, *vault, config_key, signer) is None
                &&& amount == *old(vault_balance)
                &&& *final(vault_balance) == 0
            },
            Err(e) => {
                &&& exit_check(*config, *vault, config_key, signer) == Some(e)
                &&& *final(vault_balance) == *old(vault_balance)
            },
        },
{
    if signer != config.admin {
        return Err(FundCycleError::Unauthorized);
    }
    if !config.claimable {
        return Err(FundCycleError::ClaimingNotEnabled);
    }
    if config.claims_completed < config.max_beneficiaries {
        return Err(FundCycleError::NotAllClaimed);
    }
    if vault.config != config_key {
        return Err(FundCycleError::InvalidConfig);
    }
    if config.claims_completed != config.max_beneficiaries {
        return Err(FundCycleError::NotAllClaimed);
    }
    let remaining: u64 = *vault_balance;
    *vault_balance = 0;
    Ok(remaining)
}

/// A snapshot of the claim phase: the latch, the round-robin position, how
/// many have claimed, the cohort size, and the vault balance.
pub fn get_status(config: &ConfigAccount, vault_balance: u64) -> (r: (bool, u8, u8, u8, u64))
    ensures
        r == (
            config.claimable,
            config.current_index,
            config.claims_completed,
            config.max_beneficiaries,
            vault_balance,
        ),
{
    (
        config.claimable,
        config.current_index,
        config.claims_completed,
        config.max_beneficiaries,
        vault_balance,
    )
}

/// Whether the round-robin pointer has completed a full revolution, i.e.
/// the claim phase may be enabled.
pub fn is_cycle_complete(config: &ConfigAccount) -> (r: bool)
    ensures
        r == (config.current_index >= config.max_beneficiaries),
{
    config.current_index >= config.max_beneficiaries
}

/// Whether every slot of the cohort has reclaimed its collateral.
pub fn is_all_claimed(config: &ConfigAccount) -> (r: bool)
    ensures
        r == (config.claims_completed >= config.max_beneficiaries),
{
    config.claims_completed >= config.max_beneficiaries
}

} // verus!
