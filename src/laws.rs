use vstd::prelude::*;

use crate::accounts::{derives, system_program_id, Config, TokenAccount};
use crate::book::{book_outcome, vault_address_of, record_address_of, BookInstruction, BookInstructionParams};
use crate::errors::AppError;
use crate::host_withdraw::{withdraw_outcome, HostWithdraw, HostWithdrawParams};
use crate::state::BookingState;

verus! {

/// After an accepted booking the vault holds exactly the deposited amount, in
/// the accepted currency and under its own authority, the funding account has
/// paid exactly that amount, and the record is in state `New`.
pub proof fn lemma_book_deposits_amount(ctx: BookInstruction, config: Config, params: BookInstructionParams, now: i64)
    requires
        book_outcome(ctx, config, params, now) is Ok,
    ensures
        ({
            let next = book_outcome(ctx, config, params, now)->Ok_0;
            &&& next.booking_payment_vault.token == Some(TokenAccount {
                mint: config.accepted_mint,
                authority: ctx.booking_payment_vault.address,
                amount: params.amount,
            })
            &&& next.guest_token_account.amount + params.amount == ctx.guest_token_account.amount
            &&& next.booking_payment.data is Some
            &&& next.booking_payment.data->Some_0.state == BookingState::New
        }),
{
}

/// A second booking of the same (booking id, host, guest) is refused, so no
/// second deposit is made; where its own dates and amount are valid, the
/// refusal is `InitializedBooking`.
pub proof fn lemma_book_twice_refused(
    ctx: BookInstruction,
    config: Config,
    first: BookInstructionParams,
    second: BookInstructionParams,
    now: i64,
    later: i64,
)
    requires
        book_outcome(ctx, config, first, now) is Ok,
        second.booking_id@ == first.booking_id@,
        second.host_pk@ == first.host_pk@,
    ensures
        book_outcome(book_outcome(ctx, config, first, now)->Ok_0, config, second, later) is Err,
        second.amount > 0 && second.start_date > later && second.end_date > second.start_date
            ==> book_outcome(book_outcome(ctx, config, first, now)->Ok_0, config, second, later)
            == Err::<BookInstruction, AppError>(AppError::InitializedBooking),
{
}

/// A withdrawal from an open booking at or before its end date is refused
/// with `WithdrawForbidden`.
pub proof fn lemma_withdraw_before_end_forbidden(ctx: HostWithdraw, config: Config, params: HostWithdrawParams, now: i64)
    requires
        ctx.booking_payment.data is Some,
        ctx.booking_payment.data->Some_0.state == BookingState::New,
        now <= ctx.booking_payment.data->Some_0.end_date,
    ensures
        withdraw_outcome(ctx, config, params, now) == Err::<HostWithdraw, AppError>(AppError::WithdrawForbidden),
{
}

/// A withdrawal from an open booking after its end date, with the accounts of
/// that booking, moves the whole vault to the host, returns both storage
/// deposits to the guest, and removes the vault and the record.
pub proof fn lemma_withdraw_after_end_releases(ctx: HostWithdraw, config: Config, params: HostWithdrawParams, now: i64)
    requires
        ctx.booking_payment.data is Some,
        ctx.booking_payment.data->Some_0.state == BookingState::New,
        now > ctx.booking_payment.data->Some_0.end_date,
        ctx.guest_account.owner@ == system_program_id(),
        derives(record_address_of(config, params.booking_id@, ctx.signer@, ctx.guest_account.key@), ctx.booking_payment.address@),
        derives(vault_address_of(config, params.booking_id@, ctx.signer@, ctx.guest_account.key@), ctx.booking_payment_vault.address@),
        ctx.booking_payment_vault.token is Some,
        ctx.booking_payment_vault.token->Some_0.authority@ == ctx.booking_payment_vault.address@,
        ctx.booking_payment_vault.token->Some_0.mint@ == ctx.host_token_account.mint@,
        ctx.host_token_account.amount + ctx.booking_payment_vault.token->Some_0.amount <= u64::MAX,
        ctx.guest_account.lamports + ctx.booking_payment.lamports + ctx.booking_payment_vault.lamports <= u64::MAX,
    ensures
        withdraw_outcome(ctx, config, params, now) is Ok,
        ({
            let next = withdraw_outcome(ctx, config, params, now)->Ok_0;
            &&& next.host_token_account.amount == ctx.host_token_account.amount + ctx.booking_payment_vault.token->Some_0.amount
            &&& next.guest_account.lamports == ctx.guest_account.lamports + ctx.booking_payment.lamports + ctx.booking_payment_vault.lamports
            &&& next.booking_payment_vault.token is None
            &&& next.booking_payment_vault.lamports == 0
            &&& next.booking_payment.data is None
            &&& next.booking_payment.lamports == 0
        }),
{
}

/// A booking whose id is not 32 characters long is refused with
/// `BookingIdInvalid` once currency, amount and dates are valid.
pub proof fn lemma_book_id_length(ctx: BookInstruction, config: Config, params: BookInstructionParams, now: i64)
    requires
        ctx.guest_token_account.mint@ == config.accepted_mint@,
        params.amount > 0,
        params.start_date > now,
        params.end_date > params.start_date,
        params.booking_id@.len() != 32,
    ensures
        book_outcome(ctx, config, params, now) == Err::<BookInstruction, AppError>(AppError::BookingIdInvalid),
{
}

/// A booking of amount zero in the accepted currency is refused with
/// `BookingAmountInvalid`.
pub proof fn lemma_book_zero_amount(ctx: BookInstruction, config: Config, params: BookInstructionParams, now: i64)
    requires
        ctx.guest_token_account.mint@ == config.accepted_mint@,
        params.amount == 0,
    ensures
        book_outcome(ctx, config, params, now) == Err::<BookInstruction, AppError>(AppError::BookingAmountInvalid),
{
}

/// A booking funded in another currency than the accepted one is refused
/// with `InvalidMint`.
pub proof fn lemma_book_wrong_mint(ctx: BookInstruction, config: Config, params: BookInstructionParams, now: i64)
    requires
        ctx.guest_token_account.mint@ != config.accepted_mint@,
    ensures
        book_outcome(ctx, config, params, now) == Err::<BookInstruction, AppError>(AppError::InvalidMint),
{
}

/// A withdrawal from an open booking after its end date whose guest is not a
/// plain account is refused with `InvalidGuestAccount`.
pub proof fn lemma_withdraw_guest_not_plain(ctx: HostWithdraw, config: Config, params: HostWithdrawParams, now: i64)
    requires
        ctx.booking_payment.data is Some,
        ctx.booking_payment.data->Some_0.state == BookingState::New,
        now > ctx.booking_payment.data->Some_0.end_date,
        ctx.guest_account.owner@ != system_program_id(),
    ensures
        withdraw_outcome(ctx, config, params, now) == Err::<HostWithdraw, AppError>(AppError::InvalidGuestAccount),
{
}

} // verus!
