//! One whole cycle as a single value: the configuration, the vault balance,
//! and the beneficiary registry keyed by wallet.
//!
//! The ledger stores each beneficiary record at an address derived from the
//! (configuration, wallet) pair; here that keyed storage is a vector in
//! which each wallet appears at most once. The invariant `inv` ties the
//! records together: every record points back at this configuration, every
//! slot index is in range, the round-robin pointer never passes the cohort
//! size, and the claim counter equals the number of records whose
//! collateral has been reclaimed.

use vstd::prelude::*;

use crate::error::FundCycleError;
use crate::ops;
use crate::ops::add_beneficiary_check;
use crate::ops::claim_collateral_check;
use crate::ops::deposit_collateral_check;
use crate::ops::deposit_monthly_check;
use crate::ops::enable_claiming_check;
use crate::ops::exit_check;
use crate::ops::punish_check;
use crate::ops::withdraw_check;
use crate::state::BeneficiaryAccount;
use crate::state::ConfigAccount;
use crate::state::VaultAccount;
use crate::state::beneficiary_wf;
use crate::state::config_wf;
use crate::state::next_index;
use crate::state::payout_amount;

verus! {

/// How many records in `s` have reclaimed their collateral.
pub open spec fn count_claimed(s: Seq<BeneficiaryAccount>) -> int
    decreases s.len(),
{
    if s.len() == 0 {
        0
    } else {
        count_claimed(s.drop_last()) + (if s.last().collateral_claimed {
            1int
        } else {
            0int
        })
    }
}

/// Whether some record in `s` belongs to `wallet`.
pub open spec fn has_wallet(s: Seq<BeneficiaryAccount>, wallet: u64) -> bool {
    exists|i: int| 0 <= i < s.len() && s[i].wallet == wallet
}

/// The position of `wallet`'s record in `s` (unique when wallets are
/// distinct).
pub open spec fn wallet_index(s: Seq<BeneficiaryAccount>, wallet: u64) -> int {
    choose|i: int| 0 <= i < s.len() && s[i].wallet == wallet
}

/// The claimed count never passes the number of records.
pub proof fn lemma_count_claimed_le_len(s: Seq<BeneficiaryAccount>)
    ensures
        0 <= count_claimed(s) <= s.len(),
    decreases s.len(),
{
    if s.len() > 0 {
        lemma_count_claimed_le_len(s.drop_last());
    }
}

/// Appending a record adds its claimed flag to the count.
pub proof fn lemma_count_claimed_push(s: Seq<BeneficiaryAccount>, b: BeneficiaryAccount)
    ensures
        count_claimed(s.push(b)) == count_claimed(s) + (if b.collateral_claimed {
            1int
        } else {
            0int
        }),
{
    assert(s.push(b).drop_last() =~= s);
    assert(s.push(b).last() == b);
}

/// Replacing the record at `i` adjusts the count by the difference of the
/// two claimed flags.
pub proof fn lemma_count_claimed_update(s: Seq<BeneficiaryAccount>, i: int, b: BeneficiaryAccount)
    requires
        0 <= i < s.len(),
    ensures
        count_claimed(s.update(i, b)) == count_claimed(s) - (if s[i].collateral_claimed {
            1int
        } else {
            0int
        }) + (if b.collateral_claimed {
            1int
        } else {
            0int
        }),
    decreases s.len(),
{
    let t = s.update(i, b);
    if i == s.len() - 1 {
        assert(t.drop_last() =~= s.drop_last());
        assert(t.last() == b);
    } else {
        assert(t.drop_last() =~= s.drop_last().update(i, b));
        assert(t.last() == s.last());
        lemma_count_claimed_update(s.drop_last(), i, b);
    }
}

/// When wallets are distinct, `wallet_index` is the one position a found
/// record can stand at.
pub proof fn lemma_wallet_index_unique(s: Seq<BeneficiaryAccount>, wallet: u64, i: int)
    requires
        forall|p: int, q: int|
            0 <= p < q < s.len() ==> s[p].wallet != s[q].wallet,
        0 <= i < s.len(),
        s[i].wallet == wallet,
    ensures
        wallet_index(s, wallet) == i,
{
    assert(has_wallet(s, wallet));
    let j = wallet_index(s, wallet);
    assert(0 <= j < s.len() && s[j].wallet == wallet);
    if i < j {
        assert(s[i].wallet != s[j].wallet);
    } else if j < i {
        assert(s[j].wallet != s[i].wallet);
    }
}

/// One cycle: the configuration record and its derived address, the vault
/// record and the vault's ledger balance, and every beneficiary record.
pub struct Cycle {
    /// The configuration record.
    pub config: ConfigAccount,
    /// The configuration record's derived address, which the other records
    /// point back at.
    pub config_key: u64,
    /// The vault record.
    pub vault: VaultAccount,
    /// The ledger balance of the vault's account.
    pub vault_balance: u64,
    /// Every enrolled beneficiary's record, each wallet at most once.
    pub beneficiaries: Vec<BeneficiaryAccount>,
}

/// Whether two cycle values carry exactly the same state.
pub open spec fn state_eq(a: Cycle, b: Cycle) -> bool {
    &&& a.config == b.config
    &&& a.config_key == b.config_key
    &&& a.vault == b.vault
    &&& a.vault_balance == b.vault_balance
    &&& a.beneficiaries@ == b.beneficiaries@
}

impl Cycle {
    /// The cycle's invariant, established at initialization and preserved
    /// by every operation.
    pub open spec fn inv(self) -> bool {
        &&& self.vault.config == self.config_key
        &&& config_wf(self.config)
        &&& forall|i: int|
            0 <= i < self.beneficiaries@.len() ==> beneficiary_wf(
                #[trigger] self.beneficiaries@[i],
                self.config,
                self.config_key,
            )
        &&& forall|p: int, q: int|
            0 <= p < q < self.beneficiaries@.len()
                ==> self.beneficiaries@[p].wallet != self.beneficiaries@[q].wallet
        &&& self.config.claims_completed as int == count_claimed(self.beneficiaries@)
    }

    /// Whether `wallet` is enrolled.
    pub open spec fn spec_has(self, wallet: u64) -> bool {
        has_wallet(self.beneficiaries@, wallet)
    }

    /// The enrolled record of `wallet` (meaningful when `spec_has` holds).
    pub open spec fn spec_at(self, wallet: u64) -> BeneficiaryAccount {
        self.beneficiaries@[wallet_index(self.beneficiaries@, wallet)]
    }

    /// Initialization: a fresh configuration with the pointer at zero, the
    /// claim latch off and the counter at zero, an empty vault bound to it,
    /// and no beneficiaries.
    pub fn new(
        admin: u64,
        config_key: u64,
        collateral_amount: u64,
        monthly_payout: u64,
        payment_interval_days: u16,
        max_beneficiaries: u8,
        withdraw_percent: u8,
        config_bump: u8,
        vault_bump: u8,
    ) -> (r: Cycle)
        ensures
            r.inv(),
            r.config == (ConfigAccount {
                admin,
                collateral_amount,
                monthly_payout,
                payment_interval_days,
                withdraw_percent,
                max_beneficiaries,
                current_index: 0,
                bump: config_bump,
                claimable: false,
                claims_completed: 0,
            }),
            r.config_key == config_key,
            r.vault == (VaultAccount { config: config_key, bump: vault_bump }),
            r.vault_balance == 0,
            r.beneficiaries@.len() == 0,
    {
        let (config, vault) = ops::initialize(
            admin,
            config_key,
            collateral_amount,
            monthly_payout,
            payment_interval_days,
            max_beneficiaries,
            withdraw_percent,
            config_bump,
            vault_bump,
        );
        Cycle { config, config_key, vault, vault_balance: 0, beneficiaries: Vec::new() }
    }

    /// The position of `wallet`'s record, if it is enrolled.
    fn find_index(&self, wallet: u64) -> (r: Option<usize>)
        ensures
            match r {
                Some(i) => i < self.beneficiaries@.len() && self.beneficiaries@[i as int].wallet
                    == wallet,
                None => !self.spec_has(wallet),
            },
    {
        let mut i: usize = 0;
        while i < self.beneficiaries.len()
            invariant
                i <= self.beneficiaries@.len(),
                forall|j: int| 0 <= j < i ==> self.beneficiaries@[j].wallet != wallet,
            decreases self.beneficiaries@.len() - i,
        {
            if self.beneficiaries[i].wallet == wallet {
                return Some(i);
            }
            i = i + 1;
        }
        None
    }

    /// The enrolled record of `wallet`, if any (a copy).
    pub fn get_beneficiary(&self, wallet: u64) -> (r: Option<BeneficiaryAccount>)
        requires
            self.inv(),
        ensures
            match r {
                Some(b) => self.spec_has(wallet) && b == self.spec_at(wallet),
                None => !self.spec_has(wallet),
            },
    {
        match self.find_index(wallet) {
            Some(i) => {
                proof {
                    lemma_wallet_index_unique(self.beneficiaries@, wallet, i as int);
                }
                Some(self.beneficiaries[i])
            },
            None => None,
        }
    }

    /// Enrollment. The ledger refuses a duplicate record for the same
    /// (configuration, wallet) pair before this operation runs, so the
    /// wallet is fresh here.
    pub fn add_beneficiary(&mut self, signer: u64, wallet: u64, bump: u8) -> (r: Result<
        (),
        FundCycleError,
    >)
        requires
            old(self).inv(),
            !old(self).spec_has(wallet),
        ensures
            final(self).inv(),
            final(self).config_key == old(self).config_key,
            final(self).vault == old(self).vault,
            final(self).config.claims_completed >= old(self).config.claims_completed,
            old(self).config.claimable ==> final(self).config.claimable,
            match r {
                Ok(()) => {
                    &&& add_beneficiary_check(old(self).config, signer) is None
                    &&& final(self).config == (ConfigAccount {
                        current_index: (old(self).config.current_index + 1) as u8,
                        ..old(self).config
                    })
                    &&& final(self).beneficiaries@ == old(self).beneficiaries@.push(
                        BeneficiaryAccount {
                            config: old(self).config_key,
                            wallet,
                            bump,
                            index: old(self).config.current_index,
                            collateral_paid: false,
                            monthly_paid: false,
                            last_payment_ts: 0,
                            active: true,
                            collateral_claimed: false,
                        },
                    )
                    &&& final(self).vault_balance == old(self).vault_balance
                },
                Err(e) => {
                    &&& add_beneficiary_check(old(self).config, signer) == Some(e)
                    &&& state_eq(*final(self), *old(self))
                },
            },
    {
        match ops::add_beneficiary(&mut self.config, self.config_key, signer, wallet, bump) {
            Ok(b) => {
                proof {
                    lemma_count_claimed_push(self.beneficiaries@, b);
                }
                self.beneficiaries.push(b);
                Ok(())
            },
            Err(e) => Err(e),
        }
    }

    /// The one-shot collateral deposit by `signer`'s own record.
    pub fn deposit_collateral(&mut self, signer: u64) -> (r: Result<(), FundCycleError>)
        requires
            old(self).inv(),
            old(self).spec_has(signer) && deposit_collateral_check(
                old(self).spec_at(signer),
                old(self).config_key,
                signer,
            ) is None ==> old(self).vault_balance + old(self).config.collateral_amount <= u64::MAX,
        ensures
            final(self).inv(),
            final(self).config == old(self).config,
            final(self).config_key == old(self).config_key,
            final(self).vault == old(self).vault,
            match r {
                Ok(()) => {
                    &&& old(self).spec_has(signer)
                    &&& deposit_collateral_check(
                        old(self).spec_at(signer),
                        old(self).config_key,
                        signer,
                    ) is None
                    &&& final(self).beneficiaries@ == old(self).beneficiaries@.update(
                        wallet_index(old(self).beneficiaries@, signer),
                        (BeneficiaryAccount { collateral_paid: true, ..old(self).spec_at(signer) }),
                    )
                    &&& final(self).vault_balance == old(self).vault_balance + old(
                        self,
                    ).config.collateral_amount
                },
                Err(e) => {
                    &&& state_eq(*final(self), *old(self))
                    &&& if old(self).spec_has(signer) {
                        deposit_collateral_check(
                            old(self).spec_at(signer),
                            old(self).config_key,
                            signer,
                        ) == Some(e)
                    } else {
                        e == FundCycleError::MissingBeneficiaryAccount
                    }
                },
            },
    {
        let i = match self.find_index(signer) {
            Some(i) => i,
            None => {
                return Err(FundCycleError::MissingBeneficiaryAccount);
            },
        };
        proof {
            lemma_wallet_index_unique(self.beneficiaries@, signer, i as int);
        }
        let mut b = self.beneficiaries[i];
        match ops::deposit_collateral(
            &self.config,
            self.config_key,
            &mut b,
            &mut self.vault_balance,
            signer,
        ) {
            Ok(()) => {
                proof {
                    lemma_count_claimed_update(self.beneficiaries@, i as int, b);
                }
                self.beneficiaries.set(i, b);
                Ok(())
            },
            Err(e) => Err(e),
        }
    }

    /// The recurring contribution by `signer`'s own record at time `now`.
    pub fn deposit_monthly(&mut self, signer: u64, now: i64) -> (r: Result<(), FundCycleError>)
        requires
            old(self).inv(),
            old(self).spec_has(signer) && deposit_monthly_check(
                old(self).spec_at(signer),
                old(self).config_key,
                signer,
            ) is None ==> old(self).vault_balance + old(self).config.monthly_payout <= u64::MAX,
        ensures
            final(self).inv(),
            final(self).config == old(self).config,
            final(self).config_key == old(self).config_key,
            final(self).vault == old(self).vault,
            match r {
                Ok(()) => {
                    &&& old(self).spec_has(signer)
                    &&& deposit_monthly_check(
                        old(self).spec_at(signer),
                        old(self).config_key,
                        signer,
                    ) is None
                    &&& final(self).beneficiaries@ == old(self).beneficiaries@.update(
                        wallet_index(old(self).beneficiaries@, signer),
                        (BeneficiaryAccount {
                            monthly_paid: true,
                            last_payment_ts: now,
                            ..old(self).spec_at(signer)
                        }),
                    )
                    &&& final(self).vault_balance == old(self).vault_balance + old(
                        self,
                    ).config.monthly_payout
                },
                Err(e) => {
                    &&& state_eq(*final(self), *old(self))
                    &&& if old(self).spec_has(signer) {
                        deposit_monthly_check(
                            old(self).spec_at(signer),
                            old(self).config_key,
                            signer,
                        ) == Some(e)
                    } else {
                        e == FundCycleError::MissingBeneficiaryAccount
                    }
                },
            },
    {
        let i = match self.find_index(signer) {
            Some(i) => i,
            None => {
                return Err(FundCycleError::MissingBeneficiaryAccount);
            },
        };
        proof {
            lemma_wallet_index_unique(self.beneficiaries@, signer, i as int);
        }
        let mut b = self.beneficiaries[i];
        match ops::deposit_monthly(
            &self.config,
            self.config_key,
            &mut b,
            &mut self.vault_balance,
            signer,
            now,
        ) {
            Ok(()) => {
                proof {
                    lemma_count_claimed_update(self.beneficiaries@, i as int, b);
                }
                self.beneficiaries.set(i, b);
                Ok(())
            },
            Err(e) => Err(e),
        }
    }

    /// The round-robin payout to `signer`'s own record at time `now`. On
    /// success the returned amount leaves the vault for `signer`'s wallet.
    pub fn withdraw(&mut self, signer: u64, now: i64) -> (r: Result<u64, FundCycleError>)
        requires
            old(self).inv(),
        ensures
            final(self).inv(),
            final(self).config_key == old(self).config_key,
            final(self).vault == old(self).vault,
            final(self).config.claims_completed >= old(self).config.claims_completed,
            old(self).config.claimable ==> final(self).config.claimable,
            match r {
                Ok(amount) => {
                    &&& old(self).spec_has(signer)
                    &&& withdraw_check(
                        old(self).config,
                        old(self).spec_at(signer),
                        old(self).vault_balance,
                        old(self).config_key,
                        signer,
                        now,
                    ) is None
                    &&& amount == payout_amount(old(self).config)
                    &&& final(self).config == (ConfigAccount {
                        current_index: next_index(old(self).config) as u8,
                        ..old(self).config
                    })
                    &&& final(self).beneficiaries@ == old(self).beneficiaries@.update(
                        wallet_index(old(self).beneficiaries@, signer),
                        (BeneficiaryAccount { monthly_paid: false, ..old(self).spec_at(signer) }),
                    )
                    &&& final(self).vault_balance == old(self).vault_balance - amount
                },
                Err(e) => {
                    &&& state_eq(*final(self), *old(self))
                    &&& if old(self).spec_has(signer) {
                        withdraw_check(
                            old(self).config,
                            old(self).spec_at(signer),
                            old(self).vault_balance,
                            old(self).config_key,
                            signer,
                            now,
                        ) == Some(e)
                    } else {
                        e == FundCycleError::MissingBeneficiaryAccount
                    }
                },
            },
    {
        let i = match self.find_index(signer) {
            Some(i) => i,
            None => {
                return Err(FundCycleError::MissingBeneficiaryAccount);
            },
        };
        proof {
            lemma_wallet_index_unique(self.beneficiaries@, signer, i as int);
        }
        let mut b = self.beneficiaries[i];
        match ops::withdraw(
            &mut self.config,
            self.config_key,
            &mut b,
            &mut self.vault_balance,
            signer,
            now,
        ) {
            Ok(amount) => {
                proof {
                    lemma_count_claimed_update(self.beneficiaries@, i as int, b);
                }
                self.beneficiaries.set(i, b);
                Ok(amount)
            },
            Err(e) => Err(e),
        }
    }

    /// Delinquency enforcement against `wallet`'s record at time `now`,
    /// by the admin.
    pub fn punish(&mut self, signer: u64, wallet: u64, now: i64) -> (r: Result<(), FundCycleError>)
        requires
            old(self).inv(),
        ensures
            final(self).inv(),
            final(self).config == old(self).config,
            final(self).config_key == old(self).config_key,
            final(self).vault == old(self).vault,
            final(self).vault_balance == old(self).vault_balance,
            match r {
                Ok(()) => {
                    &&& old(self).spec_has(wallet)
                    &&& punish_check(
                        old(self).config,
                        old(self).spec_at(wallet),
                        old(self).config_key,
                        signer,
                        now,
                    ) is None
                    &&& final(self).beneficiaries@ == old(self).beneficiaries@.update(
                        wallet_index(old(self).beneficiaries@, wallet),
                        (BeneficiaryAccount { active: false, ..old(self).spec_at(wallet) }),
                    )
                },
                Err(e) => {
                    &&& state_eq(*final(self), *old(self))
                    &&& if old(self).spec_has(wallet) {
                        punish_check(
                            old(self).config,
                            old(self).spec_at(wallet),
                            old(self).config_key,
                            signer,
                            now,
                        ) == Some(e)
                    } else {
                        e == FundCycleError::MissingBeneficiaryAccount
                    }
                },
            },
    {
        let i = match self.find_index(wallet) {
            Some(i) => i,
            None => {
                return Err(FundCycleError::MissingBeneficiaryAccount);
            },
        };
        proof {
            lemma_wallet_index_unique(self.beneficiaries@, wallet, i as int);
        }
        let mut b = self.beneficiaries[i];
        match ops::punish(&self.config, self.config_key, &mut b, signer, now) {
            Ok(()) => {
                proof {
                    lemma_count_claimed_update(self.beneficiaries@, i as int, b);
                }
                self.beneficiaries.set(i, b);
                Ok(())
            },
            Err(e) => Err(e),
        }
    }

    /// Sets the one-way claim latch, by the admin, once the round-robin
    /// pointer has completed its revolution.
    pub fn enable_claiming(&mut self, signer: u64) -> (r: Result<(), FundCycleError>)
        requires
            old(self).inv(),
        ensures
            final(self).inv(),
            final(self).config_key == old(self).config_key,
            final(self).vault == old(self).vault,
            final(self).vault_balance == old(self).vault_balance,
            final(self).beneficiaries@ == old(self).beneficiaries@,
            final(self).config.claims_completed >= old(self).config.claims_completed,
            old(self).config.claimable ==> final(self).config.claimable,
            match r {
                Ok(()) => {
                    &&& enable_claiming_check(old(self).config, signer) is None
                    &&& final(self).config == (ConfigAccount {
                        claimable: true,
                        ..old(self).config
                    })
                },
                Err(e) => {
                    &&& enable_claiming_check(old(self).config, signer) == Some(e)
                    &&& final(self).config == old(self).config
                },
            },
    {
        ops::enable_claiming(&mut self.config, signer)
    }

    /// Collateral reclamation by `signer`'s own record. On success the
    /// returned amount — exactly the collateral — leaves the vault for
    /// `signer`'s wallet.
    pub fn claim_collateral(&mut self, signer: u64) -> (r: Result<u64, FundCycleError>)
        requires
            old(self).inv(),
        ensures
            final(self).inv(),
            final(self).config_key == old(self).config_key,
            final(self).vault == old(self).vault,
            final(self).config.claims_completed >= old(self).config.claims_completed,
            old(self).config.claimable ==> final(self).config.claimable,
            match r {
                Ok(amount) => {
                    &&& old(self).spec_has(signer)
                    &&& claim_collateral_check(
                        old(self).config,
                        old(self).vault,
                        Some(old(self).spec_at(signer)),
                        old(self).vault_balance,
                        old(self).config_key,
                        signer,
                    ) is None
                    &&& amount == old(self).config.collateral_amount
                    &&& final(self).config == (ConfigAccount {
                        claims_completed: (old(self).config.claims_completed + 1) as u8,
                        ..old(self).config
                    })
                    &&& final(self).beneficiaries@ == old(self).beneficiaries@.update(
                        wallet_index(old(self).beneficiaries@, signer),
                        (BeneficiaryAccount {
                            collateral_claimed: true,
                            ..old(self).spec_at(signer)
                        }),
                    )
                    &&& final(self).vault_balance == old(self).vault_balance - amount
                },
                Err(e) => {
                    &&& state_eq(*final(self), *old(self))
                    &&& claim_collateral_check(
                        old(self).config,
                        old(self).vault,
                        if old(self).spec_has(signer) {
                            Some(old(self).spec_at(signer))
                        } else {
                            None
                        },
                        old(self).vault_balance,
                        old(self).config_key,
                        signer,
                    ) == Some(e)
                },
            },
    {
        let found = self.find_index(signer);
        let mut b_opt: Option<BeneficiaryAccount> = match found {
            Some(i) => {
                proof {
                    lemma_wallet_index_unique(self.beneficiaries@, signer, i as int);
                }
                Some(self.beneficiaries[i])
            },
            None => None,
        };
        match ops::claim_collateral(
            &mut self.config,
            self.config_key,
            &self.vault,
            &mut b_opt,
            &mut self.vault_balance,
            signer,
        ) {
            Ok(amount) => {
                // A successful claim always has a record: the check returns
                // MissingBeneficiaryAccount otherwise.
                let i = match found {
                    Some(i) => i,
                    None => vstd::pervasive::unreached(),
                };
                let b = match b_opt {
                    Some(b) => b,
                    None => vstd::pervasive::unreached(),
                };
                proof {
                    lemma_count_claimed_update(self.beneficiaries@, i as int, b);
                }
                self.beneficiaries.set(i, b);
                Ok(amount)
            },
            Err(e) => Err(e),
        }
    }

    /// Cycle termination by the admin: drains the vault's entire remaining
    /// balance to the admin. The ledger then destroys the configuration and
    /// vault records; beneficiary records persist as an audit trail.
    pub fn exit(&mut self, signer: u64) -> (r: Result<u64, FundCycleError>)
        requires
            old(self).inv(),
        ensures
            final(self).inv(),
            final(self).config == old(self).config,
            final(self).config_key == old(self).config_key,
            final(self).vault == old(self).vault,
            final(self).beneficiaries@ == old(self).beneficiaries@,
            match r {
                Ok(amount) => {
                    &&& exit_check(
                        old(self).config,
                        old(self).vault,
                        old(self).config_key,
                        signer,
                    ) is None
                    &&& amount == old(self).vault_balance
                    &&& final(self).vault_balance == 0
                },
                Err(e) => {
                    &&& exit_check(old(self).config, old(self).vault, old(self).config_key, signer)
                        == Some(e)
                    &&& final(self).vault_balance == old(self).vault_balance
                },
            },
    {
        ops::exit(&self.config, self.config_key, &self.vault, &mut self.vault_balance, signer)
    }
}

} // verus!
