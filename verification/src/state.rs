//! The three persistent record types of a cycle, and the arithmetic the
//! operations are specified with.
//!
//! Identities (the administrator, a participant's wallet) and record
//! addresses are plain `u64` keys here: the surrounding ledger derives and
//! authenticates them; the state machine only compares them. Timestamps are
//! `i64` seconds, as the ledger's clock reports them.

use vstd::prelude::*;

verus! {

/// Immutable-after-init parameters of one cycle, plus its mutable state:
/// the round-robin pointer, the claim counter and the claim-enabled latch.
#[derive(Clone, Copy, Debug, PartialEq, Eq, Structural)]
pub struct ConfigAccount {
    /// Identity authorized to enroll beneficiaries, punish, enable claiming
    /// and tear the cycle down.
    pub admin: u64,
    /// Refundable deposit each beneficiary posts once, in native units.
    pub collateral_amount: u64,
    /// The recurring contribution (monthly payout base), in native units.
    pub monthly_payout: u64,
    /// Days between required contributions / eligible withdrawals.
    pub payment_interval_days: u16,
    /// Fraction (0-100) of the pooled contribution distributed per payout.
    pub withdraw_percent: u8,
    /// Fixed cohort size, set at creation, never changed.
    pub max_beneficiaries: u8,
    /// Round-robin pointer: whose turn it is to withdraw; also the
    /// enrollment counter while the cohort fills.
    pub current_index: u8,
    /// Derivation tag of the record's storage address.
    pub bump: u8,
    /// Becomes true once the round-robin has visited every slot; gates
    /// collateral reclamation. One-way latch.
    pub claimable: bool,
    /// How many beneficiaries have reclaimed collateral.
    pub claims_completed: u8,
}

/// One enrolled participant's record, keyed by (configuration, wallet).
#[derive(Clone, Copy, Debug, PartialEq, Eq, Structural)]
pub struct BeneficiaryAccount {
    /// Address of the owning configuration (back-reference).
    pub config: u64,
    /// Participant identity; authorizes all self-service operations.
    pub wallet: u64,
    /// Derivation tag of the record's storage address.
    pub bump: u8,
    /// Fixed slot assigned at enrollment, 0-based.
    pub index: u8,
    /// True once the one-shot collateral deposit has been made.
    pub collateral_paid: bool,
    /// True while the current interval's contribution is paid.
    pub monthly_paid: bool,
    /// Timestamp of the most recent accepted contribution (0 until first).
    pub last_payment_ts: i64,
    /// False once punished for delinquency; permanent.
    pub active: bool,
    /// True once collateral reclamation has paid out; terminal.
    pub collateral_claimed: bool,
}

/// The pooled balance's record: only the back-reference and the derivation
/// tag. The numeric balance itself is the ledger balance of the vault's
/// account and is passed to the operations as a plain value.
#[derive(Clone, Copy, Debug, PartialEq, Eq, Structural)]
pub struct VaultAccount {
    /// Address of the owning configuration (back-reference).
    pub config: u64,
    /// Derivation tag of the record's storage address.
    pub bump: u8,
}

/// The configuration's structural invariant: the round-robin pointer never
/// passes the cohort size. It equals `max_beneficiaries` exactly when a
/// full revolution (or full enrollment) has just completed.
pub open spec fn config_wf(c: ConfigAccount) -> bool {
    c.current_index <= c.max_beneficiaries
}

/// A beneficiary record's structural invariant relative to its owning
/// configuration: correct back-reference and an in-range slot.
pub open spec fn beneficiary_wf(b: BeneficiaryAccount, c: ConfigAccount, config_key: u64) -> bool {
    &&& b.config == config_key
    &&& b.index < c.max_beneficiaries
}

/// The payment interval in seconds.
pub open spec fn interval_secs(c: ConfigAccount) -> int {
    c.payment_interval_days as int * 86400
}

/// When the next contribution falls due for `b`: one interval after the
/// most recent accepted contribution.
pub open spec fn payment_due_ts(c: ConfigAccount, b: BeneficiaryAccount) -> int {
    b.last_payment_ts as int + interval_secs(c)
}

/// One round's pooled contribution: the contribution amount times the
/// cohort size (as unbounded integers; the operation checks the bound).
pub open spec fn pool_amount(c: ConfigAccount) -> int {
    c.monthly_payout as int * c.max_beneficiaries as int
}

/// The payout numerator before the percentage division.
pub open spec fn payout_numerator(c: ConfigAccount) -> int {
    pool_amount(c) * c.withdraw_percent as int
}

/// What one withdrawal pays out: `withdraw_percent` percent of the pool,
/// truncated toward zero.
pub open spec fn payout_amount(c: ConfigAccount) -> int {
    payout_numerator(c) / 100
}

/// The round-robin pointer after a successful withdrawal: advance by one,
/// wrapping at the cohort size.
pub open spec fn next_index(c: ConfigAccount) -> int {
    (c.current_index as int + 1) % c.max_beneficiaries as int
}

} // verus!
