use vstd::prelude::*;

verus! {

/// Size of the account discriminator that precedes a stored group.
pub const DISCRIMINATOR_SIZE: usize = 8;

/// Size of a serialized key.
pub const PUBKEY_SIZE: usize = 32;

/// Size of a serialized signed 64-bit balance.
pub const I64_SIZE: usize = 8;

/// Size of a serialized flag.
pub const BOOL_SIZE: usize = 1;

/// Size of the length prefix of a serialized list.
pub const VEC_SIZE: usize = 4;

/// The most members a group can hold.
pub const MAX_GROUP_USERS: usize = 50;

/// Size of one serialized balance entry.
pub const USER_BALANCE_SIZE: usize = PUBKEY_SIZE + I64_SIZE + BOOL_SIZE;

/// Space reserved for a stored group at its full capacity.
pub const GROUP_SIZE: usize = DISCRIMINATOR_SIZE + PUBKEY_SIZE + PUBKEY_SIZE + VEC_SIZE + (
MAX_GROUP_USERS * USER_BALANCE_SIZE);

/// Seed tag from which the escrow authority of a group is derived.
pub const ESCROW_AUTHORITY_SEED: &'static str = "authority";

} // verus!
