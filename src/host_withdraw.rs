use vstd::prelude::*;

use crate::accounts::{
    booking_address, derives, is_system_program, same_address, system_program_id, vault_address,
    Address, Config, SystemAccount, TokenAccount,
};
use crate::book::{record_address_of, vault_address_of};
use crate::errors::AppError;
use crate::state::{BookingState, RecordAccount, VaultAccount};

verus! {

/// What a host names when claiming a booking's vault.
#[derive(Clone, Debug)]
pub struct HostWithdrawParams {
    pub booking_id: String,
}

/// The accounts that a withdrawal touches: the host (who signs), the host's
/// receiving account, the guest (who gets the storage deposits back), and the
/// record and vault accounts at the addresses derived from (booking id, host,
/// guest). No check is made of who owns the receiving account.
#[derive(Clone, Debug)]
pub struct HostWithdraw {
    pub signer: Address,
    pub host_token_account: TokenAccount,
    pub guest_account: SystemAccount,
    pub booking_payment: RecordAccount,
    pub booking_payment_vault: VaultAccount,
}

/// The first reason, in order of checking, why a withdrawal is refused.
pub open spec fn withdraw_error(ctx: HostWithdraw, config: Config, params: HostWithdrawParams, now: i64) -> Option<AppError> {
    match ctx.booking_payment.data {
        None => Some(AppError::BookingInvalid),
        Some(record) => if record.state != BookingState::New {
            Some(AppError::BookingInvalid)
        } else if now <= record.end_date {
            Some(AppError::WithdrawForbidden)
        } else if ctx.guest_account.owner@ != system_program_id() {
            Some(AppError::InvalidGuestAccount)
        } else if !derives(record_address_of(config, params.booking_id@, ctx.signer@, ctx.guest_account.key@), ctx.booking_payment.address@)
            || !derives(vault_address_of(config, params.booking_id@, ctx.signer@, ctx.guest_account.key@), ctx.booking_payment_vault.address@) {
            Some(AppError::InvalidAddress)
        } else {
            match ctx.booking_payment_vault.token {
                None => Some(AppError::BookingInvalid),
                Some(vault) => if vault.authority@ != ctx.booking_payment_vault.address@ {
                    Some(AppError::InvalidAddress)
                } else if ctx.host_token_account.mint@ != vault.mint@ {
                    Some(AppError::InvalidMint)
                } else if ctx.host_token_account.amount + vault.amount > u64::MAX
                    || ctx.guest_account.lamports + ctx.booking_payment.lamports + ctx.booking_payment_vault.lamports > u64::MAX {
                    Some(AppError::Overflow)
                } else {
                    None
                },
            }
        },
    }
}

/// The accounts after an accepted withdrawal: the host's account has received
/// the whole vault, the guest has both storage deposits back, and the record
/// and the vault are gone.
pub open spec fn withdrawn(ctx: HostWithdraw) -> HostWithdraw {
    HostWithdraw {
        signer: ctx.signer,
        host_token_account: TokenAccount {
            mint: ctx.host_token_account.mint,
            authority: ctx.host_token_account.authority,
            amount: (ctx.host_token_account.amount + ctx.booking_payment_vault.token.unwrap().amount) as u64,
        },
        guest_account: SystemAccount {
            key: ctx.guest_account.key,
            owner: ctx.guest_account.owner,
            lamports: (ctx.guest_account.lamports + ctx.booking_payment.lamports + ctx.booking_payment_vault.lamports) as u64,
        },
        booking_payment: RecordAccount { address: ctx.booking_payment.address, lamports: 0, data: None },
        booking_payment_vault: VaultAccount { address: ctx.booking_payment_vault.address, lamports: 0, token: None },
    }
}

/// The outcome of a withdrawal: the accounts after it, or the error.
pub open spec fn withdraw_outcome(ctx: HostWithdraw, config: Config, params: HostWithdrawParams, now: i64) -> Result<HostWithdraw, AppError> {
    match withdraw_error(ctx, config, params, now) {
        Some(e) => Err(e),
        None => Ok(withdrawn(ctx)),
    }
}

impl HostWithdraw {
    /// Checks that the booking is open, its end date has passed and the guest
    /// is a plain account; then releases the whole vault to the host's account
    /// under the vault's own derived authority, and closes the vault and the
    /// record, returning their storage deposits to the guest, all at once.
    pub fn handle(ctx: &mut HostWithdraw, config: &Config, params: HostWithdrawParams, now: i64) -> (r: Result<(), AppError>)
        ensures
            match withdraw_outcome(*old(ctx), *config, params, now) {
                Ok(next) => r == Ok::<(), AppError>(()) && *final(ctx) == next,
                Err(e) => r == Err::<(), AppError>(e) && *final(ctx) == *old(ctx),
            },
    {
        match &ctx.booking_payment.data {
            None => {
                return Err(AppError::BookingInvalid);
            },
            Some(record) => {
                if record.state != BookingState::New {
                    return Err(AppError::BookingInvalid);
                }
                if now <= record.end_date {
                    return Err(AppError::WithdrawForbidden);
                }
            },
        }
        if !is_system_program(&ctx.guest_account.owner) {
            return Err(AppError::InvalidGuestAccount);
        }
        let id: &str = params.booking_id.as_str();
        match booking_address(&config.program_id, id, &ctx.signer, &ctx.guest_account.key) {
            Some((address, _)) => {
                if !same_address(&address, &ctx.booking_payment.address) {
                    return Err(AppError::InvalidAddress);
                }
            },
            None => {
                return Err(AppError::InvalidAddress);
            },
        }
        match vault_address(&config.program_id, id, &ctx.signer, &ctx.guest_account.key) {
            Some((address, _)) => {
                if !same_address(&address, &ctx.booking_payment_vault.address) {
                    return Err(AppError::InvalidAddress);
                }
            },
            None => {
                return Err(AppError::InvalidAddress);
            },
        }
        let released: u64 = match &ctx.booking_payment_vault.token {
            None => {
                return Err(AppError::BookingInvalid);
            },
            Some(vault) => {
                if !same_address(&vault.authority, &ctx.booking_payment_vault.address) {
                    return Err(AppError::InvalidAddress);
                }
                if !same_address(&ctx.host_token_account.mint, &vault.mint) {
                    return Err(AppError::InvalidMint);
                }
                vault.amount
            },
        };
        if ctx.host_token_account.amount > u64::MAX - released
            || ctx.guest_account.lamports > u64::MAX - ctx.booking_payment.lamports
            || ctx.guest_account.lamports + ctx.booking_payment.lamports > u64::MAX - ctx.booking_payment_vault.lamports {
            return Err(AppError::Overflow);
        }
        ctx.host_token_account.amount = ctx.host_token_account.amount + released;
        ctx.guest_account.lamports = ctx.guest_account.lamports + ctx.booking_payment.lamports
            + ctx.booking_payment_vault.lamports;
        ctx.booking_payment = RecordAccount { address: ctx.booking_payment.address, lamports: 0, data: None };
        ctx.booking_payment_vault = VaultAccount { address: ctx.booking_payment_vault.address, lamports: 0, token: None };
        Ok(())
    }
}

} // verus!
