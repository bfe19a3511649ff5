//! Error kinds reported by the ledger operations.

use vstd::prelude::*;

verus! {

/// Every failure an operation of this crate can report.
///
/// Validation and state errors are detected before any record is mutated;
/// arithmetic errors abort the operation at the failing step, and the
/// operation leaves no partial state behind in any case.
#[derive(Clone, Copy, Debug, PartialEq, Eq, Structural)]
pub enum TreasuryBondsError {
    /// An issuer name is empty or longer than 30 bytes.
    InvalidIssuerLength,
    /// A bond issue number is empty or longer than 20 bytes.
    InvalidIssuerNoLength,
    /// The bond type is neither fixed-coupon (1) nor infrastructure (2).
    InvalidTypeOfBond,
    /// The bond tenor lies outside the 2 to 30 year range.
    InvalidBondTenor,
    /// The bond coupon rate is zero.
    InvalidBondCouponRate,
    /// A value date is empty or longer than 20 bytes.
    InvalidValueDateLength,
    /// A redemption date is empty or longer than 20 bytes.
    InvalidValueRedemptionLength,
    /// A requested or offered amount is zero where a positive one is needed.
    InvalidAmount,
    /// A numeric field is zero where a positive one is needed.
    InvalidNumeric,
    /// A subscription amount is below the bond's minimum bid amount.
    InvalidMinimumBidAmount,
    /// A country code is neither 2 nor 3 bytes long.
    InvalidCountryLength,
    /// A checked addition, subtraction, multiplication or decimal scaling
    /// overflowed or underflowed.
    InvalidArithmeticOperation,
    /// An investor's full names are empty or longer than 50 bytes.
    InvalidFullNamesLength,
    /// The investor taking part in the operation is not active.
    InvalidInvestorStatus,
    /// The investor (or the bond aggregate) holds no funds, or too few, for
    /// the requested operation.
    InsufficientFunds,
    /// The requested amount differs from the investor's available funds;
    /// sell and redeem accept only an exact match.
    MismatchedAmount,
    /// The bond's maturity flag forbids the operation: sell needs an
    /// unmatured bond, redeem a matured one.
    InvalidBondMaturityStatus,
    /// A record that the operation reads or mutates was never initialized.
    AccountNotInitialized,
    /// A record that the operation would create already exists.
    AccountAlreadyInitialized,
    /// A bounded roster (the issuer registry or a bond's investor list) is
    /// full and cannot take another entry.
    CapacityExceeded,
}

} // verus!
