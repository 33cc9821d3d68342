use vstd::prelude::*;
use vstd::string::StrSliceExecFns;

use crate::accounts::{
    booking_address, derives, program_address, same_address, vault_address, Address, Config,
    SystemAccount, TokenAccount, BOOK_ESCROW_SEED, BOOK_ESCROW_VAULT_SEED,
};
use crate::errors::AppError;
use crate::state::{Booking, BookingState, RecordAccount, VaultAccount};

verus! {

/// What a guest asks for when booking.
#[derive(Clone, Debug)]
pub struct BookInstructionParams {
    pub booking_id: String,
    pub start_date: i64,
    pub end_date: i64,
    pub host_pk: Address,
    pub amount: u64,
}

/// The accounts that a booking touches: the guest (who signs and pays the
/// storage deposits), the guest's funding account, and the record and vault
/// accounts at the addresses derived from (booking id, host, guest).
#[derive(Clone, Debug)]
pub struct BookInstruction {
    pub signer: SystemAccount,
    pub guest_token_account: TokenAccount,
    pub booking_payment: RecordAccount,
    pub booking_payment_vault: VaultAccount,
}

/// The record address of a booking request made by `guest`.
pub open spec fn record_address_of(config: Config, id: Seq<char>, host: Seq<u8>, guest: Seq<u8>) -> Option<(Seq<u8>, u8)> {
    program_address(BOOK_ESCROW_SEED@, id, host, guest, config.program_id@)
}

/// The vault address of a booking request made by `guest`.
pub open spec fn vault_address_of(config: Config, id: Seq<char>, host: Seq<u8>, guest: Seq<u8>) -> Option<(Seq<u8>, u8)> {
    program_address(BOOK_ESCROW_VAULT_SEED@, id, host, guest, config.program_id@)
}

/// The bump byte of a derived address.
pub open spec fn bump_of(found: Option<(Seq<u8>, u8)>) -> u8 {
    match found {
        Some(f) => f.1,
        None => 0,
    }
}

/// The first reason, in order of checking, why a booking is refused.
pub open spec fn book_error(ctx: BookInstruction, config: Config, params: BookInstructionParams, now: i64) -> Option<AppError> {
    if ctx.guest_token_account.mint@ != config.accepted_mint@ {
        Some(AppError::InvalidMint)
    } else if params.amount == 0 {
        Some(AppError::BookingAmountInvalid)
    } else if params.start_date <= now {
        Some(AppError::StartDateInvalid)
    } else if params.end_date <= params.start_date {
        Some(AppError::EndDateInvalid)
    } else if params.booking_id@.len() != 32 {
        Some(AppError::BookingIdInvalid)
    } else if !derives(record_address_of(config, params.booking_id@, params.host_pk@, ctx.signer.key@), ctx.booking_payment.address@)
        || !derives(vault_address_of(config, params.booking_id@, params.host_pk@, ctx.signer.key@), ctx.booking_payment_vault.address@) {
        Some(AppError::InvalidAddress)
    } else if ctx.booking_payment.data is Some || ctx.booking_payment_vault.token is Some {
        Some(AppError::InitializedBooking)
    } else if ctx.guest_token_account.authority@ != ctx.signer.key@ {
        Some(AppError::OwnerMismatch)
    } else if ctx.guest_token_account.amount < params.amount
        || ctx.signer.lamports < config.record_rent + config.vault_rent {
        Some(AppError::InsufficientFunds)
    } else if ctx.booking_payment.lamports + config.record_rent > u64::MAX
        || ctx.booking_payment_vault.lamports + config.vault_rent > u64::MAX {
        Some(AppError::Overflow)
    } else {
        None
    }
}

/// The accounts after an accepted booking: the guest has paid both storage
/// deposits, the amount has left the funding account, the record holds the
/// request in state `New`, and the vault, its own authority, holds the amount.
pub open spec fn booked(ctx: BookInstruction, config: Config, params: BookInstructionParams) -> BookInstruction {
    BookInstruction {
        signer: SystemAccount {
            key: ctx.signer.key,
            owner: ctx.signer.owner,
            lamports: (ctx.signer.lamports - config.record_rent - config.vault_rent) as u64,
        },
        guest_token_account: TokenAccount {
            mint: ctx.guest_token_account.mint,
            authority: ctx.guest_token_account.authority,
            amount: (ctx.guest_token_account.amount - params.amount) as u64,
        },
        booking_payment: RecordAccount {
            address: ctx.booking_payment.address,
            lamports: (ctx.booking_payment.lamports + config.record_rent) as u64,
            data: Some(Booking {
                id: params.booking_id,
                start_date: params.start_date,
                end_date: params.end_date,
                state: BookingState::New,
                bump: bump_of(record_address_of(config, params.booking_id@, params.host_pk@, ctx.signer.key@)),
            }),
        },
        booking_payment_vault: VaultAccount {
            address: ctx.booking_payment_vault.address,
            lamports: (ctx.booking_payment_vault.lamports + config.vault_rent) as u64,
            token: Some(TokenAccount {
                mint: config.accepted_mint,
                authority: ctx.booking_payment_vault.address,
                amount: params.amount,
            }),
        },
    }
}

/// The outcome of a booking request: the accounts after it, or the error.
pub open spec fn book_outcome(ctx: BookInstruction, config: Config, params: BookInstructionParams, now: i64) -> Result<BookInstruction, AppError> {
    match book_error(ctx, config, params, now) {
        Some(e) => Err(e),
        None => Ok(booked(ctx, config, params)),
    }
}

impl BookInstruction {
    /// Validates a booking request and, if every check passes, opens the
    /// record and the vault and moves the deposit into the vault, all at once.
    pub fn handle(ctx: &mut BookInstruction, config: &Config, params: BookInstructionParams, now: i64) -> (r: Result<(), AppError>)
        ensures
            match book_outcome(*old(ctx), *config, params, now) {
                Ok(next) => r == Ok::<(), AppError>(()) && *final(ctx) == next,
                Err(e) => r == Err::<(), AppError>(e) && *final(ctx) == *old(ctx),
            },
    {
        if !same_address(&ctx.guest_token_account.mint, &config.accepted_mint) {
            return Err(AppError::InvalidMint);
        }
        if params.amount == 0 {
            return Err(AppError::BookingAmountInvalid);
        }
        if params.start_date <= now {
            return Err(AppError::StartDateInvalid);
        }
        if params.end_date <= params.start_date {
            return Err(AppError::EndDateInvalid);
        }
        let id: &str = params.booking_id.as_str();
        if id.unicode_len() != 32 {
            return Err(AppError::BookingIdInvalid);
        }
        let record = booking_address(&config.program_id, params.booking_id.as_str(), &params.host_pk, &ctx.signer.key);
        let bump: u8 = match record {
            Some((address, bump)) => {
                if !same_address(&address, &ctx.booking_payment.address) {
                    return Err(AppError::InvalidAddress);
                }
                bump
            },
            None => {
                return Err(AppError::InvalidAddress);
            },
        };
        let vault = vault_address(&config.program_id, params.booking_id.as_str(), &params.host_pk, &ctx.signer.key);
        match vault {
            Some((address, _)) => {
                if !same_address(&address, &ctx.booking_payment_vault.address) {
                    return Err(AppError::InvalidAddress);
                }
            },
            None => {
                return Err(AppError::InvalidAddress);
            },
        }
        if ctx.booking_payment.data.is_some() || ctx.booking_payment_vault.token.is_some() {
            return Err(AppError::InitializedBooking);
        }
        if !same_address(&ctx.guest_token_account.authority, &ctx.signer.key) {
            return Err(AppError::OwnerMismatch);
        }
        if ctx.guest_token_account.amount < params.amount || ctx.signer.lamports < config.record_rent
            || ctx.signer.lamports - config.record_rent < config.vault_rent {
            return Err(AppError::InsufficientFunds);
        }
        if ctx.booking_payment.lamports > u64::MAX - config.record_rent
            || ctx.booking_payment_vault.lamports > u64::MAX - config.vault_rent {
            return Err(AppError::Overflow);
        }
        ctx.signer.lamports = ctx.signer.lamports - config.record_rent - config.vault_rent;
        ctx.booking_payment.lamports = ctx.booking_payment.lamports + config.record_rent;
        ctx.booking_payment_vault.lamports = ctx.booking_payment_vault.lamports + config.vault_rent;
        ctx.booking_payment.data = Some(Booking {
            id: params.booking_id,
            start_date: params.start_date,
            end_date: params.end_date,
            state: BookingState::New,
            bump,
        });
        ctx.guest_token_account.amount = ctx.guest_token_account.amount - params.amount;
        ctx.booking_payment_vault.token = Some(TokenAccount {
            mint: config.accepted_mint,
            authority: ctx.booking_payment_vault.address,
            amount: params.amount,
        });
        Ok(())
    }
}

} // verus!
