use vstd::prelude::*;

verus! {

/// Every way an operation of the treasury can be refused.
#[derive(Debug, Clone, Copy, PartialEq, Eq, Structural)]
pub enum ErrorCode {
    /// No canonical bump exists, or the stored bump does not derive the
    /// given token authority.
    InvalidTreasuryTokenAuthorityBump,
    /// The custody account is not controlled by the derived token authority.
    TreasuryTokenAuthorityDoesNotMatch,
    /// The custody account has a delegate.
    TreasuryTokenAccountCanNotBeDelegated,
    /// The custody account has a close authority.
    TreasuryTokenAccountMustNotBeCloseable,
    /// The closing time of the treasury has not come yet.
    TooEarlyToClose,
    /// The treasury still has open promises or outstanding obligations.
    ClosingTreasuryWithPromises,
    /// The closing sweep would move the tokens into the custody account itself.
    CloseTargetIsSource,
    /// The custody balance would not cover the unclaimed obligations.
    InsufficientPromiseFunds,
    /// Claiming before the start time.
    NonStarted,
    /// Shrinking a promise once claiming has begun, or below what was
    /// already paid out.
    CanNotWithdrawPromiseAfterStart,
    /// The signer is not the administrator of the treasury.
    AdminAuthorityDoesNotMatch,
    /// The signer is not the beneficiary of the promise.
    TargetAuthorityDoesNotMatch,
    /// The promise belongs to another treasury.
    TreasuryAccountDoesNotMatch,
    /// The custody account is not the one recorded in the treasury.
    TokenStoreDoesNotMatch,
    /// The rent collector is not the one recorded in the treasury.
    RentCollectorDoesNotMatch,
    /// The promise record is not at the address derived from its treasury
    /// and beneficiary.
    PromiseAddressDoesNotMatch,
    /// The treasury record was already opened, or was closed.
    TreasuryAlreadyInitialized,
    /// The treasury is not open.
    TreasuryNotOpen,
    /// The promise record was already opened, or was closed.
    PromiseAlreadyInitialized,
    /// The promise is not open.
    PromiseNotOpen,
    /// A running total or counter would leave the range of `u64`.
    AmountOverflow,
}

} // verus!
