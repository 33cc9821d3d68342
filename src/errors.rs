use vstd::prelude::*;

verus! {

/// Why an escrow operation was refused. Every refusal leaves all accounts as
/// they were.
#[derive(Clone, Copy, Debug, PartialEq, Eq, Structural)]
pub enum AppError {
    /// The deposit amount is zero.
    BookingAmountInvalid,
    /// The stay does not start after the current time.
    StartDateInvalid,
    /// The stay does not end after it starts.
    EndDateInvalid,
    /// The booking was already completed.
    CompletedBooking,
    /// The booking id is not 32 characters long.
    BookingIdInvalid,
    /// A record already exists for this (booking id, host, guest).
    InitializedBooking,
    /// There is no open booking to withdraw from.
    BookingInvalid,
    /// The host may withdraw only after the end date.
    WithdrawForbidden,
    /// The funds are not in the accepted currency.
    InvalidMint,
    /// The guest account is not a plain (system-owned) account.
    InvalidGuestAccount,
    /// An account is not the one derived from (booking id, host, guest).
    InvalidAddress,
    /// The funding account does not belong to the signer.
    OwnerMismatch,
    /// The payer holds less than the deposit or the storage costs.
    InsufficientFunds,
    /// A balance would exceed its 64-bit range.
    Overflow,
}

} // verus!
