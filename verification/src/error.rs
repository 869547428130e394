//! The closed error taxonomy: each variant identifies exactly one violated
//! operation precondition.

use vstd::prelude::*;

verus! {

/// Why an operation was refused. Every operation either commits fully or
/// fails with one of these and leaves all records exactly as they were.
#[derive(Clone, Copy, Debug, PartialEq, Eq, Structural)]
pub enum FundCycleError {
    /// Maximum number of beneficiaries reached.
    MaxBeneficiariesReached,
    /// Collateral already paid.
    CollateralAlreadyPaid,
    /// Collateral not paid.
    CollateralNotPaid,
    /// Monthly contribution already paid.
    AlreadyPaidMonthly,
    /// It's not your turn to withdraw.
    NotYourTurn,
    /// Monthly contribution not paid.
    MonthlyNotPaid,
    /// Beneficiary is inactive.
    InactiveBeneficiary,
    /// Math overflow occurred.
    MathOverflow,
    /// No funds available for withdrawal.
    NoFundsAvailable,
    /// Insufficient balance in vault.
    InsufficientVaultBalance,
    /// Payment is still on time, cannot punish.
    PaymentStillOnTime,
    /// Invalid beneficiary wallet.
    InvalidBeneficiaryWallet,
    /// Claiming is already enabled.
    AlreadyClaimable,
    /// Round robin cycle not complete.
    CycleNotComplete,
    /// Missing beneficiary account.
    MissingBeneficiaryAccount,
    /// Collateral already claimed.
    AlreadyClaimed,
    /// Insufficient funds in vault.
    InsufficientVaultFunds,
    /// Unauthorized access.
    Unauthorized,
    /// Claiming is not enabled.
    ClaimingNotEnabled,
    /// Not all beneficiaries have claimed.
    NotAllClaimed,
    /// Invalid config account.
    InvalidConfig,
}

impl FundCycleError {
    /// A human-readable description of the violated precondition.
    pub fn message(&self) -> &'static str {
        match self {
            FundCycleError::MaxBeneficiariesReached => "Maximum number of beneficiaries reached",
            FundCycleError::CollateralAlreadyPaid => "Collateral already paid",
            FundCycleError::CollateralNotPaid => "Collateral not paid",
            FundCycleError::AlreadyPaidMonthly => "Monthly contribution already paid",
            FundCycleError::NotYourTurn => "It's not your turn to withdraw",
            FundCycleError::MonthlyNotPaid => "Monthly contribution not paid",
            FundCycleError::InactiveBeneficiary => "Beneficiary is inactive",
            FundCycleError::MathOverflow => "Math overflow occurred",
            FundCycleError::NoFundsAvailable => "No funds available for withdrawal",
            FundCycleError::InsufficientVaultBalance => "Insufficient balance in vault",
            FundCycleError::PaymentStillOnTime => "Payment is still on time, cannot punish",
            FundCycleError::InvalidBeneficiaryWallet => "Invalid beneficiary wallet",
            FundCycleError::AlreadyClaimable => "Claiming is already enabled",
            FundCycleError::CycleNotComplete => "Round robin cycle not complete",
            FundCycleError::MissingBeneficiaryAccount => "Missing beneficiary account",
            FundCycleError::AlreadyClaimed => "Collateral already claimed",
            FundCycleError::InsufficientVaultFunds => "Insufficient funds in vault",
            FundCycleError::Unauthorized => "Unauthorized access",
            FundCycleError::ClaimingNotEnabled => "Claiming is not enabled",
            FundCycleError::NotAllClaimed => "Not all beneficiaries have claimed",
            FundCycleError::InvalidConfig => "Invalid config account",
        }
    }
}

} // verus!
