use vstd::prelude::*;

use crate::accounts::{Address, TokenAccount};

verus! {

/// Where a booking record stands in its life.
#[derive(Clone, Copy, Debug, PartialEq, Eq, Structural)]
pub enum BookingState {
    /// Not booked yet.
    Unset,
    /// Booked and paid; the host may claim the vault after the end date.
    New,
    /// Reserved for a cancellation policy; no operation enters this state.
    Cancelled,
}

/// The record of one booking.
#[derive(Clone, Debug)]
pub struct Booking {
    /// The booking id, 32 characters long.
    pub id: String,
    /// Start of the stay, in seconds since the epoch.
    pub start_date: i64,
    /// End of the stay, in seconds since the epoch.
    pub end_date: i64,
    pub state: BookingState,
    /// The bump byte of the record's derived address.
    pub bump: u8,
}

/// The account at a booking's derived address, with its storage deposit;
/// `data` is `None` while no record is stored there.
#[derive(Clone, Debug)]
pub struct RecordAccount {
    pub address: Address,
    pub lamports: u64,
    pub data: Option<Booking>,
}

/// The account at a vault's derived address, with its storage deposit;
/// `token` is `None` while no vault is open there.
#[derive(Clone, Copy, Debug)]
pub struct VaultAccount {
    pub address: Address,
    pub lamports: u64,
    pub token: Option<TokenAccount>,
}

} // verus!
