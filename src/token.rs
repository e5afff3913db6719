use vstd::prelude::*;

use solana_program::program_pack::Pack;
use solana_program::pubkey::Pubkey;
use spl_token::state::{Account as SplAccount, Mint as SplMint};

use crate::key::Key;

verus! {

/// Length of a stored token holding account.
pub const TOKEN_ACCOUNT_LEN: usize = 165;

/// Length of a stored currency (mint) record.
pub const MINT_LEN: usize = 82;

/// An account as the ledger sees it: its address, the program that owns it,
/// and its stored bytes.
pub struct AccountData {
    pub key: Key,
    pub owner: Key,
    pub data: Vec<u8>,
}

/// What the ledger reads of a token holding account.
#[derive(Clone, Copy, Debug)]
pub struct TokenAccount {
    pub mint: Key,
    pub owner: Key,
    pub amount: u64,
    pub delegate: Option<Key>,
    pub is_frozen: bool,
    pub close_authority: Option<Key>,
}

/// The little-endian `u64` stored at `at`.
pub open spec fn u64_le(d: Seq<u8>, at: int) -> int {
    d[at] + d[at + 1] * 0x100 + d[at + 2] * 0x1_0000 + d[at + 3] * 0x100_0000 + d[at + 4]
        * 0x1_0000_0000 + d[at + 5] * 0x100_0000_0000 + d[at + 6] * 0x1_0000_0000_0000 + d[at + 7]
        * 0x100_0000_0000_0000
}

/// The four-byte tag of an optional field at `at` marks it present.
pub open spec fn tag_some(d: Seq<u8>, at: int) -> bool {
    d.subrange(at, at + 4) == seq![1u8, 0u8, 0u8, 0u8]
}

/// The four-byte tag of an optional field at `at` marks it absent.
pub open spec fn tag_none(d: Seq<u8>, at: int) -> bool {
    d.subrange(at, at + 4) == seq![0u8, 0u8, 0u8, 0u8]
}

pub open spec fn tag_valid(d: Seq<u8>, at: int) -> bool {
    tag_some(d, at) || tag_none(d, at)
}

/// `d` is an initialized currency record: the right length, well-formed optional
/// authorities, and the initialized flag set.
pub open spec fn mint_valid(d: Seq<u8>) -> bool {
    &&& d.len() == MINT_LEN
    &&& tag_valid(d, 0)
    &&& d[45] == 1
    &&& tag_valid(d, 46)
}

/// `d` is an initialized token holding account: the right length, well-formed
/// optional fields, and a state that is initialized (1) or frozen (2).
pub open spec fn token_account_valid(d: Seq<u8>) -> bool {
    &&& d.len() == TOKEN_ACCOUNT_LEN
    &&& tag_valid(d, 72)
    &&& (d[108] == 1 || d[108] == 2)
    &&& tag_valid(d, 109)
    &&& tag_valid(d, 129)
}

pub open spec fn token_mint(d: Seq<u8>) -> Seq<u8> {
    d.subrange(0, 32)
}

pub open spec fn token_owner(d: Seq<u8>) -> Seq<u8> {
    d.subrange(32, 64)
}

pub open spec fn token_amount(d: Seq<u8>) -> int {
    u64_le(d, 64)
}

pub open spec fn token_has_delegate(d: Seq<u8>) -> bool {
    tag_some(d, 72)
}

pub open spec fn token_is_frozen(d: Seq<u8>) -> bool {
    d[108] == 2
}

pub open spec fn token_has_close_authority(d: Seq<u8>) -> bool {
    tag_some(d, 129)
}

/// `a` holds what the bytes `d` of a token holding account record.
pub open spec fn token_account_of(d: Seq<u8>, a: TokenAccount) -> bool {
    &&& a.mint@ == token_mint(d)
    &&& a.owner@ == token_owner(d)
    &&& a.amount == token_amount(d)
    &&& (a.delegate is Some) == token_has_delegate(d)
    &&& (a.delegate matches Some(k) ==> k@ == d.subrange(76, 108))
    &&& a.is_frozen == token_is_frozen(d)
    &&& (a.close_authority is Some) == token_has_close_authority(d)
    &&& (a.close_authority matches Some(k) ==> k@ == d.subrange(133, 165))
}

/// Relies on spl_token's `Account::unpack` (through `Pack::unpack`): it accepts exactly
/// 165 bytes laid out as mint, owner, amount, optional delegate, state, optional
/// native reserve, delegated amount and optional close authority, with an
/// initialized or frozen state, and decodes those fields.
#[verifier::external_body]
pub(crate) fn unpack_token_account(data: &Vec<u8>) -> (r: Option<TokenAccount>)
    ensures
        r is Some <==> token_account_valid(data@),
        r matches Some(a) ==> token_account_of(data@, a),
{
    let a = SplAccount::unpack(data.as_slice()).ok()?;
    Some(TokenAccount {
        mint: Key(a.mint.to_bytes()),
        owner: Key(a.owner.to_bytes()),
        amount: a.amount,
        delegate: Option::<Pubkey>::from(a.delegate).map(|k| Key(k.to_bytes())),
        is_frozen: a.is_frozen(),
        close_authority: Option::<Pubkey>::from(a.close_authority).map(|k| Key(k.to_bytes())),
    })
}

/// Relies on spl_token's `Mint::unpack` (through `Pack::unpack`): it accepts exactly
/// 82 bytes with well-formed optional mint and freeze authorities and the
/// initialized flag set to 1.
#[verifier::external_body]
pub(crate) fn unpacks_as_mint(data: &Vec<u8>) -> (r: bool)
    ensures
        r == mint_valid(data@),
{
    SplMint::unpack(data.as_slice()).is_ok()
}

} // verus!
