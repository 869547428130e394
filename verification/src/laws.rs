//! The guarantees the cycle rules give, stated and proved over the same
//! spec functions the operations' contracts use.

use vstd::prelude::*;

use vstd::arithmetic::div_mod::lemma_add_mod_noop_right;
use vstd::arithmetic::div_mod::lemma_mod_add_multiples_vanish;
use vstd::arithmetic::div_mod::lemma_mod_equivalence;
use vstd::arithmetic::div_mod::lemma_small_mod;

use crate::cycle::Cycle;
use crate::cycle::lemma_count_claimed_le_len;
use crate::error::FundCycleError;
use crate::ops::claim_collateral_check;
use crate::ops::deposit_collateral_check;
use crate::ops::deposit_monthly_check;
use crate::ops::enable_claiming_check;
use crate::ops::punish_check;
use crate::ops::withdraw_check;
use crate::state::BeneficiaryAccount;
use crate::state::ConfigAccount;
use crate::state::VaultAccount;
use crate::state::next_index;
use crate::state::payment_due_ts;

verus! {

/// Where the round-robin pointer stands after `k` successful withdrawals
/// from position `i`, with cohort size `m`: each one advances by one,
/// wrapping at `m`.
pub open spec fn index_after(i: int, k: nat, m: int) -> int
    decreases k,
{
    if k == 0 {
        i
    } else {
        (index_after(i, (k - 1) as nat, m) + 1) % m
    }
}

/// Advancing `k` times lands on `(i + k) % m`: the pointer strictly follows
/// the round-robin order, never skipping a slot.
pub proof fn lemma_index_after_is_offset(i: int, k: nat, m: int)
    requires
        0 < m,
        0 <= i < m,
    ensures
        index_after(i, k, m) == (i + k) % m,
    decreases k,
{
    if k == 0 {
        lemma_small_mod(i as nat, m as nat);
    } else {
        lemma_index_after_is_offset(i, (k - 1) as nat, m);
        lemma_add_mod_noop_right(1, i + k - 1, m);
    }
}

/// Within one full revolution the pointer never repeats: two numbers of
/// withdrawals fewer than a whole revolution apart leave it at two
/// different positions.
pub proof fn lemma_round_robin_no_repeat(i: int, j: nat, k: nat, m: int)
    requires
        0 < m,
        0 <= i < m,
        j < k,
        k - j < m,
    ensures
        index_after(i, j, m) != index_after(i, k, m),
{
    lemma_index_after_is_offset(i, j, m);
    lemma_index_after_is_offset(i, k, m);
    if (i + j) % m == (i + k) % m {
        lemma_mod_equivalence(i + j, i + k, m);
        assert(((i + j) - (i + k)) % m == 0);
        lemma_mod_add_multiples_vanish(j - k, m);
        lemma_small_mod((m + j - k) as nat, m as nat);
        assert((j - k) % m == m + j - k);
        assert(false);
    }
}

/// One successful withdrawal advances the pointer by exactly one step of
/// the round-robin order.
pub proof fn lemma_withdraw_advances_pointer(c: ConfigAccount)
    requires
        c.max_beneficiaries > 0,
    ensures
        next_index(c) == index_after(c.current_index as int, 1, c.max_beneficiaries as int),
{
    let i = c.current_index as int;
    let m = c.max_beneficiaries as int;
    assert(index_after(i, 0, m) == i);
    assert(index_after(i, 1, m) == (i + 1) % m);
}

/// Consecutive configurations of a run of successful withdrawals: each
/// step advances the pointer by exactly one, wrapping at the (unchanged)
/// cohort size, as `withdraw`'s contract ensures of every success — and no
/// other operation moves the pointer.
pub open spec fn withdraw_run(states: Seq<ConfigAccount>) -> bool {
    forall|i: int|
        0 <= i < states.len() - 1 ==> {
            &&& (#[trigger] states[i + 1]).current_index as int == next_index(states[i])
            &&& states[i + 1].max_beneficiaries == states[i].max_beneficiaries
        }
}

/// Over any run of successful withdrawals the pointer strictly follows the
/// round-robin order: after `k` of them it stands exactly `k` steps past
/// where it started, modulo the cohort size — it never skips.
pub proof fn lemma_withdraw_run_follows_round_robin(states: Seq<ConfigAccount>, k: int)
    requires
        withdraw_run(states),
        0 < states.len(),
        states[0].max_beneficiaries > 0,
        states[0].current_index < states[0].max_beneficiaries,
        0 <= k < states.len(),
    ensures
        states[k].max_beneficiaries == states[0].max_beneficiaries,
        states[k].current_index as int == index_after(
            states[0].current_index as int,
            k as nat,
            states[0].max_beneficiaries as int,
        ),
    decreases k,
{
    if k > 0 {
        lemma_withdraw_run_follows_round_robin(states, k - 1);
        assert(states[(k - 1) + 1].current_index as int == next_index(states[k - 1]));
    }
}

/// Over any run of successful withdrawals the pointer never repeats within
/// one full revolution: two of the run's states fewer than a whole
/// revolution apart carry different pointers.
pub proof fn lemma_withdraw_run_no_repeat(states: Seq<ConfigAccount>, j: int, k: int)
    requires
        withdraw_run(states),
        0 < states.len(),
        states[0].max_beneficiaries > 0,
        states[0].current_index < states[0].max_beneficiaries,
        0 <= j < k < states.len(),
        k - j < states[0].max_beneficiaries,
    ensures
        states[j].current_index != states[k].current_index,
{
    lemma_withdraw_run_follows_round_robin(states, j);
    lemma_withdraw_run_follows_round_robin(states, k);
    lemma_round_robin_no_repeat(
        states[0].current_index as int,
        j as nat,
        k as nat,
        states[0].max_beneficiaries as int,
    );
}

/// What every operation's contract keeps of a configuration: the claim
/// counter never decreases, and a set claim latch stays set.
pub open spec fn step_monotone(a: ConfigAccount, b: ConfigAccount) -> bool {
    &&& a.claims_completed <= b.claims_completed
    &&& (a.claimable ==> b.claimable)
}

/// Over any run of operations — each step bound by some operation's
/// contract, every one of which is `step_monotone` — the claim counter
/// never decreases end to end, and the claim latch, once set, is never
/// reset.
pub proof fn lemma_monotone_over_run(states: Seq<ConfigAccount>, j: int, k: int)
    requires
        forall|i: int| 0 <= i < states.len() - 1 ==> step_monotone(
            states[i],
            #[trigger] states[i + 1],
        ),
        0 <= j <= k < states.len(),
    ensures
        step_monotone(states[j], states[k]),
    decreases k - j,
{
    if j < k {
        lemma_monotone_over_run(states, j, k - 1);
        assert(step_monotone(states[(k - 1)], states[(k - 1) + 1]));
    }
}

/// A withdrawal demands this interval's contribution: against a record
/// whose `monthly_paid` is false it cannot succeed, whoever calls and
/// whenever. Since `deposit_monthly` is the only operation that sets
/// `monthly_paid`, a beneficiary cannot be paid twice on one contribution.
pub proof fn lemma_withdraw_needs_contribution(
    c: ConfigAccount,
    b: BeneficiaryAccount,
    vault_balance: u64,
    config_key: u64,
    signer: u64,
    now: i64,
)
    requires
        !b.monthly_paid,
    ensures
        withdraw_check(c, b, vault_balance, config_key, signer, now) is Some,
{
}

/// No two consecutive successful withdrawals for one record: a success
/// resets the record's `monthly_paid`, so an immediate second attempt —
/// against the advanced configuration and the reset record, at any time and
/// with any vault balance — fails (and, by `withdraw`'s contract, changes
/// nothing).
pub proof fn lemma_no_consecutive_withdrawals(
    c: ConfigAccount,
    b: BeneficiaryAccount,
    vault_balance: u64,
    config_key: u64,
    signer: u64,
    now: i64,
    later_balance: u64,
    later: i64,
)
    requires
        withdraw_check(c, b, vault_balance, config_key, signer, now) is None,
    ensures
        withdraw_check(
            (ConfigAccount { current_index: next_index(c) as u8, ..c }),
            (BeneficiaryAccount { monthly_paid: false, ..b }),
            later_balance,
            config_key,
            signer,
            later,
        ) is Some,
{
}

/// Every way an operation other than a successful monthly contribution can
/// leave one beneficiary record: untouched, collateral marked paid, the
/// contribution flag reset by a withdrawal, deactivated by punishment, or
/// marked claimed — exactly the record updates the operations' contracts
/// allow. None of them sets `monthly_paid`.
pub open spec fn record_step_without_contribution(
    a: BeneficiaryAccount,
    b: BeneficiaryAccount,
) -> bool {
    ||| b == a
    ||| b == (BeneficiaryAccount { collateral_paid: true, ..a })
    ||| b == (BeneficiaryAccount { monthly_paid: false, ..a })
    ||| b == (BeneficiaryAccount { active: false, ..a })
    ||| b == (BeneficiaryAccount { collateral_claimed: true, ..a })
}

/// No double payout on one contribution: starting from the record a
/// successful withdrawal leaves behind (`monthly_paid` reset), however many
/// operations follow, as long as none is a successful monthly contribution
/// by this beneficiary the flag stays down and every further withdrawal
/// against the record is refused.
pub proof fn lemma_no_withdrawal_until_next_contribution(
    records: Seq<BeneficiaryAccount>,
    c: ConfigAccount,
    vault_balance: u64,
    config_key: u64,
    signer: u64,
    now: i64,
    k: int,
)
    requires
        records.len() > 0,
        !records[0].monthly_paid,
        forall|i: int| 0 <= i < records.len() - 1 ==> record_step_without_contribution(
            records[i],
            #[trigger] records[i + 1],
        ),
        0 <= k < records.len(),
    ensures
        !records[k].monthly_paid,
        withdraw_check(c, records[k], vault_balance, config_key, signer, now) is Some,
    decreases k,
{
    if k > 0 {
        lemma_no_withdrawal_until_next_contribution(
            records,
            c,
            vault_balance,
            config_key,
            signer,
            now,
            k - 1,
        );
        assert(record_step_without_contribution(records[k - 1], records[(k - 1) + 1]));
    }
}

/// The claim counter never passes the cohort size while the registry holds
/// at most `max_beneficiaries` records (enrollment refuses more while the
/// pointer counts enrollments); that it never decreases is part of every
/// operation's contract.
pub proof fn lemma_claims_completed_bounded(c: Cycle)
    requires
        c.inv(),
        c.beneficiaries@.len() <= c.config.max_beneficiaries,
    ensures
        c.config.claims_completed <= c.config.max_beneficiaries,
{
    lemma_count_claimed_le_len(c.beneficiaries@);
}

/// The claim latch moves false-to-true exactly once and only at the right
/// moment: enabling succeeds only while the latch is off and the pointer
/// has reached the cohort size, and a second enabling is refused. No
/// operation's contract ever resets the latch.
pub proof fn lemma_claimable_latch(c: ConfigAccount, signer: u64)
    ensures
        enable_claiming_check(c, signer) is None ==> !c.claimable && c.current_index
            >= c.max_beneficiaries,
        c.claimable ==> enable_claiming_check(c, signer) is Some,
        (c.claimable && signer == c.admin) ==> enable_claiming_check(c, signer) == Some(
            FundCycleError::AlreadyClaimable,
        ),
{
}

/// The collateral round trip. After a record's successful collateral
/// deposit — which raises the vault by exactly `collateral_amount` — a
/// claim by the same wallet, once claiming is enabled and while the record
/// is active and unclaimed, is owed success and pays exactly
/// `collateral_amount` back out of the vault: no fees, no rounding loss,
/// and the two legs cancel.
pub proof fn lemma_collateral_round_trip(
    c: ConfigAccount,
    claim_config: ConfigAccount,
    vault: VaultAccount,
    b: BeneficiaryAccount,
    vault_start: u64,
    config_key: u64,
    signer: u64,
)
    requires
        deposit_collateral_check(b, config_key, signer) is None,
        vault_start + c.collateral_amount <= u64::MAX,
        claim_config.collateral_amount == c.collateral_amount,
        claim_config.claimable,
        claim_config.claims_completed < u8::MAX,
        vault.config == config_key,
        b.active,
        !b.collateral_claimed,
    ensures
        claim_collateral_check(
            claim_config,
            vault,
            Some((BeneficiaryAccount { collateral_paid: true, ..b })),
            (vault_start + c.collateral_amount) as u64,
            config_key,
            signer,
        ) is None,
        (vault_start + c.collateral_amount) - claim_config.collateral_amount == vault_start,
        b.wallet == signer,
{
}

/// Punishment is gated on the due date alone (once the admin targets a
/// record of this cycle): before or at the due time it fails with
/// `PaymentStillOnTime`; strictly after, it succeeds.
pub proof fn lemma_punish_gate(
    c: ConfigAccount,
    b: BeneficiaryAccount,
    config_key: u64,
    signer: u64,
    now: i64,
)
    requires
        signer == c.admin,
        b.config == config_key,
    ensures
        punish_check(c, b, config_key, signer, now) is None <==> now > payment_due_ts(c, b),
        now <= payment_due_ts(c, b) ==> punish_check(c, b, config_key, signer, now) == Some(
            FundCycleError::PaymentStillOnTime,
        ),
{
}

/// A punished record is blocked for good: against an inactive record
/// neither a monthly contribution nor a withdrawal can succeed, whoever
/// calls and whenever — and no operation's contract ever sets `active`
/// again.
pub proof fn lemma_punished_is_blocked(
    c: ConfigAccount,
    b: BeneficiaryAccount,
    vault_balance: u64,
    config_key: u64,
    signer: u64,
    now: i64,
)
    requires
        !b.active,
    ensures
        deposit_monthly_check(b, config_key, signer) is Some,
        withdraw_check(c, b, vault_balance, config_key, signer, now) is Some,
{
}

/// A withdrawal out of turn fails with `NotYourTurn` (and, by `withdraw`'s
/// contract, leaves every record and the vault balance unchanged).
pub proof fn lemma_withdraw_out_of_turn(
    c: ConfigAccount,
    b: BeneficiaryAccount,
    vault_balance: u64,
    config_key: u64,
    signer: u64,
    now: i64,
)
    requires
        b.wallet == signer,
        b.config == config_key,
        b.index != c.current_index,
    ensures
        withdraw_check(c, b, vault_balance, config_key, signer, now) == Some(
            FundCycleError::NotYourTurn,
        ),
{
}

} // verus!
