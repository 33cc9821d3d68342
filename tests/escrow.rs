use rentalescrow::accounts::{
    booking_address, is_system_program, same_address, vault_address, Address, Config, SystemAccount, TokenAccount,
};
use rentalescrow::book::{BookInstruction, BookInstructionParams};
use rentalescrow::errors::AppError;
use rentalescrow::host_withdraw::{HostWithdraw, HostWithdrawParams};
use rentalescrow::state::{Booking, BookingState, RecordAccount, VaultAccount};
use rentalescrow::{book, host_withdraw};

const NOW: i64 = 1_700_000_000;
const DAY: i64 = 86_400;
const WSOL: Address = [
    6, 155, 136, 87, 254, 171, 129, 132, 251, 104, 127, 99, 70, 24, 192, 53, 218, 196, 57, 220, 26, 235, 59, 85,
    152, 160, 240, 0, 0, 0, 0, 1,
];
const GUEST: Address = [7u8; 32];
const HOST: Address = [9u8; 32];
const OTHER_MINT: Address = [3u8; 32];

fn config() -> Config {
    let mut program_id = [0u8; 32];
    program_id[0] = 200;
    program_id[31] = 17;
    Config { program_id, accepted_mint: WSOL, record_rent: 2_000_000, vault_rent: 2_039_280 }
}

fn id_of(len: usize) -> String {
    "A".repeat(len)
}

fn params(id: &str, amount: u64) -> BookInstructionParams {
    BookInstructionParams {
        booking_id: id.to_string(),
        start_date: NOW + DAY,
        end_date: NOW + 2 * DAY,
        host_pk: HOST,
        amount,
    }
}

fn addresses(id: &str, host: &Address, guest: &Address) -> (Address, u8, Address) {
    let cfg = config();
    let (record, bump) = booking_address(&cfg.program_id, id, host, guest).expect("record address");
    let (vault, _) = vault_address(&cfg.program_id, id, host, guest).expect("vault address");
    (record, bump, vault)
}

fn book_ctx(id: &str) -> BookInstruction {
    // Addresses of an id the derivation cannot take fall back to zero bytes.
    let (record, vault) = match (
        booking_address(&config().program_id, id, &HOST, &GUEST),
        vault_address(&config().program_id, id, &HOST, &GUEST),
    ) {
        (Some((r, _)), Some((v, _))) => (r, v),
        _ => ([0u8; 32], [0u8; 32]),
    };
    BookInstruction {
        signer: SystemAccount { key: GUEST, owner: [0u8; 32], lamports: 1_000_000_000 },
        guest_token_account: TokenAccount { mint: WSOL, authority: GUEST, amount: 5_000_000 },
        booking_payment: RecordAccount { address: record, lamports: 0, data: None },
        booking_payment_vault: VaultAccount { address: vault, lamports: 0, token: None },
    }
}

fn withdraw_ctx(booked: &BookInstruction) -> HostWithdraw {
    HostWithdraw {
        signer: HOST,
        host_token_account: TokenAccount { mint: WSOL, authority: HOST, amount: 10 },
        guest_account: SystemAccount { key: GUEST, owner: [0u8; 32], lamports: booked.signer.lamports },
        booking_payment: booked.booking_payment.clone(),
        booking_payment_vault: booked.booking_payment_vault,
    }
}

fn booked_ctx(id: &str, amount: u64) -> BookInstruction {
    let mut ctx = book_ctx(id);
    assert_eq!(book(&mut ctx, &config(), params(id, amount), NOW), Ok(()));
    ctx
}

fn assert_untouched(before: &BookInstruction, after: &BookInstruction) {
    assert_eq!(before.signer.lamports, after.signer.lamports);
    assert_eq!(before.guest_token_account.amount, after.guest_token_account.amount);
    assert!(after.booking_payment.data.is_none());
    assert!(after.booking_payment_vault.token.is_none());
    assert_eq!(before.booking_payment.lamports, after.booking_payment.lamports);
    assert_eq!(before.booking_payment_vault.lamports, after.booking_payment_vault.lamports);
}

fn withdraw(ctx: &mut HostWithdraw, id: &str, now: i64) -> Result<(), AppError> {
    host_withdraw(ctx, &config(), HostWithdrawParams { booking_id: id.to_string() }, now)
}

#[test]
fn book_then_withdraw_scenario() {
    let id = id_of(32);
    let ctx = booked_ctx(&id, 1_000_000);
    let vault = ctx.booking_payment_vault.token.expect("vault open");
    assert_eq!(vault.amount, 1_000_000);

    let mut w = withdraw_ctx(&ctx);
    let before_host = w.host_token_account.amount;
    assert_eq!(withdraw(&mut w, &id, NOW + DAY / 2), Err(AppError::WithdrawForbidden));
    assert_eq!(w.booking_payment_vault.token.map(|t| t.amount), Some(1_000_000));
    assert_eq!(w.booking_payment.data.as_ref().map(|b| b.state), Some(BookingState::New));
    assert_eq!(w.host_token_account.amount, before_host);

    assert_eq!(withdraw(&mut w, &id, NOW + 2 * DAY + 1), Ok(()));
    assert_eq!(w.host_token_account.amount, before_host + 1_000_000);
    assert!(w.booking_payment_vault.token.is_none());
    assert!(w.booking_payment.data.is_none());
}

#[test]
fn book_records_new_state_and_vault_balance() {
    let id = id_of(32);
    let before = book_ctx(&id);
    let ctx = booked_ctx(&id, 1_234);
    let cfg = config();
    let (_, bump, vault_addr) = addresses(&id, &HOST, &GUEST);
    let record: &Booking = ctx.booking_payment.data.as_ref().expect("record");
    assert_eq!(record.id, id);
    assert_eq!(record.start_date, NOW + DAY);
    assert_eq!(record.end_date, NOW + 2 * DAY);
    assert_eq!(record.state, BookingState::New);
    assert_eq!(record.bump, bump);
    let vault = ctx.booking_payment_vault.token.expect("vault");
    assert_eq!(vault.amount, 1_234);
    assert_eq!(vault.mint, WSOL);
    assert_eq!(vault.authority, vault_addr);
    assert_eq!(ctx.guest_token_account.amount, before.guest_token_account.amount - 1_234);
    assert_eq!(ctx.signer.lamports, before.signer.lamports - cfg.record_rent - cfg.vault_rent);
    assert_eq!(ctx.booking_payment.lamports, cfg.record_rent);
    assert_eq!(ctx.booking_payment_vault.lamports, cfg.vault_rent);
}

#[test]
fn book_twice_same_tuple_is_refused() {
    let id = id_of(32);
    let mut ctx = booked_ctx(&id, 1_000);
    let guest_before = ctx.guest_token_account.amount;
    let r = book(&mut ctx, &config(), params(&id, 500), NOW);
    assert_eq!(r, Err(AppError::InitializedBooking));
    assert_eq!(ctx.guest_token_account.amount, guest_before);
    assert_eq!(ctx.booking_payment_vault.token.map(|t| t.amount), Some(1_000));
}

#[test]
fn withdraw_at_or_before_end_is_forbidden() {
    let id = id_of(32);
    let ctx = booked_ctx(&id, 1_000);
    for now in [NOW, NOW + DAY, NOW + 2 * DAY] {
        let mut w = withdraw_ctx(&ctx);
        assert_eq!(withdraw(&mut w, &id, now), Err(AppError::WithdrawForbidden));
        assert_eq!(w.booking_payment_vault.token.map(|t| t.amount), Some(1_000));
        assert!(w.booking_payment.data.is_some());
        assert_eq!(w.host_token_account.amount, 10);
    }
}

#[test]
fn withdraw_after_end_releases_and_refunds() {
    let id = id_of(32);
    let ctx = booked_ctx(&id, 777);
    let cfg = config();
    let mut w = withdraw_ctx(&ctx);
    let guest_before = w.guest_account.lamports;
    assert_eq!(withdraw(&mut w, &id, NOW + 3 * DAY), Ok(()));
    assert_eq!(w.host_token_account.amount, 10 + 777);
    assert_eq!(w.guest_account.lamports, guest_before + cfg.record_rent + cfg.vault_rent);
    assert!(w.booking_payment.data.is_none());
    assert!(w.booking_payment_vault.token.is_none());
    assert_eq!(w.booking_payment.lamports, 0);
    assert_eq!(w.booking_payment_vault.lamports, 0);
}

#[test]
fn booking_id_of_wrong_length_is_refused() {
    for len in [31usize, 33] {
        let id = id_of(len);
        let mut ctx = book_ctx(&id);
        let before = ctx.clone();
        assert_eq!(book(&mut ctx, &config(), params(&id, 1_000), NOW), Err(AppError::BookingIdInvalid));
        assert_untouched(&before, &ctx);
    }
}

#[test]
fn zero_amount_is_refused() {
    let id = id_of(32);
    let mut ctx = book_ctx(&id);
    let before = ctx.clone();
    assert_eq!(book(&mut ctx, &config(), params(&id, 0), NOW), Err(AppError::BookingAmountInvalid));
    assert_untouched(&before, &ctx);
}

#[test]
fn wrong_currency_is_refused() {
    let id = id_of(32);
    let mut ctx = book_ctx(&id);
    ctx.guest_token_account.mint = OTHER_MINT;
    let before = ctx.clone();
    assert_eq!(book(&mut ctx, &config(), params(&id, 1_000), NOW), Err(AppError::InvalidMint));
    assert_untouched(&before, &ctx);
}

#[test]
fn programmatic_guest_is_refused_at_withdrawal() {
    let id = id_of(32);
    let ctx = booked_ctx(&id, 1_000);
    let mut w = withdraw_ctx(&ctx);
    w.guest_account.owner = [5u8; 32];
    assert_eq!(withdraw(&mut w, &id, NOW + 3 * DAY), Err(AppError::InvalidGuestAccount));
    assert_eq!(w.host_token_account.amount, 10);
    assert_eq!(w.booking_payment_vault.token.map(|t| t.amount), Some(1_000));
}

#[test]
fn start_date_not_in_future_is_refused() {
    let id = id_of(32);
    let mut ctx = book_ctx(&id);
    let mut p = params(&id, 1_000);
    p.start_date = NOW;
    assert_eq!(book(&mut ctx, &config(), p, NOW), Err(AppError::StartDateInvalid));
    assert!(ctx.booking_payment.data.is_none());
}

#[test]
fn end_date_not_after_start_is_refused() {
    let id = id_of(32);
    let mut ctx = book_ctx(&id);
    let mut p = params(&id, 1_000);
    p.end_date = p.start_date;
    assert_eq!(book(&mut ctx, &config(), p, NOW), Err(AppError::EndDateInvalid));
    assert!(ctx.booking_payment.data.is_none());
}

#[test]
fn accounts_of_another_tuple_are_refused() {
    let id = id_of(32);
    let mut ctx = book_ctx(&id);
    let mut p = params(&id, 1_000);
    p.host_pk = [8u8; 32];
    assert_eq!(book(&mut ctx, &config(), p, NOW), Err(AppError::InvalidAddress));
    assert!(ctx.booking_payment.data.is_none());
}

#[test]
fn funding_account_of_someone_else_is_refused() {
    let id = id_of(32);
    let mut ctx = book_ctx(&id);
    ctx.guest_token_account.authority = [4u8; 32];
    assert_eq!(book(&mut ctx, &config(), params(&id, 1_000), NOW), Err(AppError::OwnerMismatch));
}

#[test]
fn insufficient_tokens_or_lamports_are_refused() {
    let id = id_of(32);
    let mut ctx = book_ctx(&id);
    assert_eq!(book(&mut ctx, &config(), params(&id, 5_000_001), NOW), Err(AppError::InsufficientFunds));
    let mut ctx = book_ctx(&id);
    ctx.signer.lamports = 4_039_279;
    assert_eq!(book(&mut ctx, &config(), params(&id, 1_000), NOW), Err(AppError::InsufficientFunds));
    let mut ctx = book_ctx(&id);
    ctx.signer.lamports = 4_039_280;
    assert_eq!(book(&mut ctx, &config(), params(&id, 5_000_000), NOW), Ok(()));
    assert_eq!(ctx.signer.lamports, 0);
    assert_eq!(ctx.guest_token_account.amount, 0);
}

#[test]
fn record_account_lamports_overflow_is_refused() {
    let id = id_of(32);
    let mut ctx = book_ctx(&id);
    ctx.booking_payment.lamports = u64::MAX - 1;
    assert_eq!(book(&mut ctx, &config(), params(&id, 1_000), NOW), Err(AppError::Overflow));
}

#[test]
fn withdraw_without_record_is_invalid() {
    let id = id_of(32);
    let ctx = book_ctx(&id);
    let mut w = withdraw_ctx(&ctx);
    assert_eq!(withdraw(&mut w, &id, NOW + 3 * DAY), Err(AppError::BookingInvalid));
}

#[test]
fn withdraw_from_cancelled_record_is_invalid() {
    let id = id_of(32);
    let ctx = booked_ctx(&id, 1_000);
    let mut w = withdraw_ctx(&ctx);
    if let Some(b) = w.booking_payment.data.as_mut() {
        b.state = BookingState::Cancelled;
    }
    assert_eq!(withdraw(&mut w, &id, NOW + 3 * DAY), Err(AppError::BookingInvalid));
}

#[test]
fn withdraw_with_another_guest_is_refused() {
    let id = id_of(32);
    let ctx = booked_ctx(&id, 1_000);
    let mut w = withdraw_ctx(&ctx);
    w.guest_account.key = [1u8; 32];
    assert_eq!(withdraw(&mut w, &id, NOW + 3 * DAY), Err(AppError::InvalidAddress));
}

#[test]
fn withdraw_into_account_of_other_currency_is_refused() {
    let id = id_of(32);
    let ctx = booked_ctx(&id, 1_000);
    let mut w = withdraw_ctx(&ctx);
    w.host_token_account.mint = OTHER_MINT;
    assert_eq!(withdraw(&mut w, &id, NOW + 3 * DAY), Err(AppError::InvalidMint));
}

#[test]
fn withdraw_overflowing_host_balance_is_refused() {
    let id = id_of(32);
    let ctx = booked_ctx(&id, 1_000);
    let mut w = withdraw_ctx(&ctx);
    w.host_token_account.amount = u64::MAX - 999;
    assert_eq!(withdraw(&mut w, &id, NOW + 3 * DAY), Err(AppError::Overflow));
}

#[test]
fn host_receiving_account_owner_is_not_checked() {
    // Open gap: unlike the guest, the host's receiving account may belong to anyone.
    let id = id_of(32);
    let ctx = booked_ctx(&id, 1_000);
    let mut w = withdraw_ctx(&ctx);
    w.host_token_account.authority = [42u8; 32];
    assert_eq!(withdraw(&mut w, &id, NOW + 3 * DAY), Ok(()));
    assert_eq!(w.host_token_account.amount, 1_010);
}

#[test]
fn derived_addresses_are_deterministic_and_distinct() {
    let id = id_of(32);
    let cfg = config();
    let a = booking_address(&cfg.program_id, &id, &HOST, &GUEST).unwrap();
    let b = booking_address(&cfg.program_id, &id, &HOST, &GUEST).unwrap();
    assert_eq!(a, b);
    let v = vault_address(&cfg.program_id, &id, &HOST, &GUEST).unwrap();
    assert_ne!(a.0, v.0);
    assert_ne!(a.0, cfg.program_id);
    let other = booking_address(&cfg.program_id, &id, &GUEST, &HOST).unwrap();
    assert_ne!(a.0, other.0);
    assert!(booking_address(&cfg.program_id, &id_of(33), &HOST, &GUEST).is_none());
}

#[test]
fn address_comparisons() {
    assert!(same_address(&HOST, &HOST));
    assert!(!same_address(&HOST, &GUEST));
    assert!(is_system_program(&[0u8; 32]));
    assert!(!is_system_program(&WSOL));
}
