//! A two-party rental escrow: a guest books a stay and deposits the price
//! into a vault that no person controls; after the stay's end date the host
//! claims the whole vault, and the record and the vault are closed with their
//! storage deposits returned to the guest.
use vstd::prelude::*;

pub mod accounts;
pub mod book;
pub mod errors;
pub mod host_withdraw;
pub mod laws;
pub mod state;

use crate::accounts::Config;
use crate::book::{book_outcome, BookInstruction, BookInstructionParams};
use crate::errors::AppError;
use crate::host_withdraw::{withdraw_outcome, HostWithdraw, HostWithdrawParams};

verus! {

/// Books a stay: validates the request, opens the record and the vault at the
/// addresses derived from (booking id, host, guest), and deposits the amount.
/// On any failure nothing changes.
pub fn book(ctx: &mut BookInstruction, config: &Config, params: BookInstructionParams, now: i64) -> (r: Result<(), AppError>)
    ensures
        match book_outcome(*old(ctx), *config, params, now) {
            Ok(next) => r == Ok::<(), AppError>(()) && *final(ctx) == next,
            Err(e) => r == Err::<(), AppError>(e) && *final(ctx) == *old(ctx),
        },
{
    BookInstruction::handle(ctx, config, params, now)
}

/// Releases a finished booking's vault to the host and closes the record and
/// the vault, returning their storage deposits to the guest. On any failure
/// nothing changes.
pub fn host_withdraw(ctx: &mut HostWithdraw, config: &Config, params: HostWithdrawParams, now: i64) -> (r: Result<(), AppError>)
    ensures
        match withdraw_outcome(*old(ctx), *config, params, now) {
            Ok(next) => r == Ok::<(), AppError>(()) && *final(ctx) == next,
            Err(e) => r == Err::<(), AppError>(e) && *final(ctx) == *old(ctx),
        },
{
    HostWithdraw::handle(ctx, config, params, now)
}

} // verus!
