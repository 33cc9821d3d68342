use vstd::prelude::*;
use anchor_lang::prelude::Pubkey;

verus! {

/// A 32-byte account address.
pub type Address = [u8; 32];

/// The address of the system program, which owns every plain account: 32
/// zero bytes.
pub open spec fn system_program_id() -> Seq<u8> {
    Seq::new(32, |i: int| 0u8)
}

/// Domain tag of the booking record addresses.
pub const BOOK_ESCROW_SEED: &'static str = "book_escrow";

/// Domain tag of the vault addresses.
pub const BOOK_ESCROW_VAULT_SEED: &'static str = "book_escrow_vault";

/// Settings fixed for the whole program.
#[derive(Clone, Copy, Debug)]
pub struct Config {
    /// The program under which record and vault addresses are derived.
    pub program_id: Address,
    /// The one currency (token mint) that bookings are paid in.
    pub accepted_mint: Address,
    /// Storage deposit of a booking record, in lamports.
    pub record_rent: u64,
    /// Storage deposit of a vault, in lamports.
    pub vault_rent: u64,
}

/// A plain account: its key, the program that owns it, and its lamports.
#[derive(Clone, Copy, Debug)]
pub struct SystemAccount {
    pub key: Address,
    pub owner: Address,
    pub lamports: u64,
}

/// A token account: its currency, the authority that may move its funds,
/// and its balance.
#[derive(Clone, Copy, Debug)]
pub struct TokenAccount {
    pub mint: Address,
    pub authority: Address,
    pub amount: u64,
}

/// The address derived from a domain tag and the key tuple (booking id, host,
/// guest) under a program, with its bump byte; `None` where the derivation
/// finds no address.
pub uninterp spec fn program_address(
    tag: Seq<char>,
    id: Seq<char>,
    host: Seq<u8>,
    guest: Seq<u8>,
    program: Seq<u8>,
) -> Option<(Seq<u8>, u8)>;

/// Relies on `Pubkey::try_find_program_address` of solana-program (through
/// anchor-lang): a pure function of the seeds and the program id, which
/// returns `None` rather than panic where no address can be derived.
#[verifier::external_body]
fn find_address(tag: &str, id: &str, host: &Address, guest: &Address, program: &Address) -> (r: Option<(Address, u8)>)
    ensures
        match (r, program_address(tag@, id@, host@, guest@, program@)) {
            (Some(a), Some(b)) => a.0@ == b.0 && a.1 == b.1,
            (None, None) => true,
            _ => false,
        },
{
    let seeds: [&[u8]; 4] = [tag.as_bytes(), id.as_bytes(), host, guest];
    Pubkey::try_find_program_address(&seeds, &Pubkey::new_from_array(*program)).map(|(k, b)| (k.to_bytes(), b))
}

/// Whether a derived address, as found, is the given address.
pub open spec fn derives(found: Option<(Seq<u8>, u8)>, address: Seq<u8>) -> bool {
    match found {
        Some(f) => f.0 == address,
        None => false,
    }
}

/// The address of the booking record of (id, host, guest), with its bump.
pub fn booking_address(program: &Address, id: &str, host: &Address, guest: &Address) -> (r: Option<(Address, u8)>)
    ensures
        match (r, program_address(BOOK_ESCROW_SEED@, id@, host@, guest@, program@)) {
            (Some(a), Some(b)) => a.0@ == b.0 && a.1 == b.1,
            (None, None) => true,
            _ => false,
        },
{
    find_address(BOOK_ESCROW_SEED, id, host, guest, program)
}

/// The address of the vault of (id, host, guest), with its bump. The vault is
/// its own authority: this address is the capability that releases it.
pub fn vault_address(program: &Address, id: &str, host: &Address, guest: &Address) -> (r: Option<(Address, u8)>)
    ensures
        match (r, program_address(BOOK_ESCROW_VAULT_SEED@, id@, host@, guest@, program@)) {
            (Some(a), Some(b)) => a.0@ == b.0 && a.1 == b.1,
            (None, None) => true,
            _ => false,
        },
{
    find_address(BOOK_ESCROW_VAULT_SEED, id, host, guest, program)
}

/// Whether an address is the system program's.
pub fn is_system_program(a: &Address) -> (r: bool)
    ensures
        r == (a@ == system_program_id()),
{
    let mut i: usize = 0;
    while i < 32
        invariant
            0 <= i <= 32,
            forall|j: int| 0 <= j < i ==> a@[j] == 0u8,
        decreases 32 - i,
    {
        if a[i] != 0u8 {
            return false;
        }
        i = i + 1;
    }
    assert(a@ =~= system_program_id());
    true
}

/// Whether two addresses are the same bytes.
pub fn same_address(a: &Address, b: &Address) -> (r: bool)
    ensures
        r == (a@ == b@),
{
    let mut i: usize = 0;
    while i < 32
        invariant
            0 <= i <= 32,
            forall|j: int| 0 <= j < i ==> a@[j] == b@[j],
        decreases 32 - i,
    {
        if a[i] != b[i] {
            return false;
        }
        i = i + 1;
    }
    assert(a@ =~= b@);
    true
}

} // verus!
