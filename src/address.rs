use vstd::prelude::*;

use solana_program::pubkey::Pubkey;

use crate::key::Key;

verus! {

/// The program-derived address, with its bump seed, that the seeds `tag` and `seed`
/// give under `program_id`, if one exists.
pub uninterp spec fn program_address_of(tag: Seq<char>, seed: Seq<u8>, program_id: Seq<u8>) -> Option<
    (Seq<u8>, u8),
>;

/// Relies on solana_program's `Pubkey::try_find_program_address`: a deterministic
/// search (hashing the seeds, a bump seed and the program id) that finds the
/// address and bump, or none.
#[verifier::external_body]
pub(crate) fn find_program_address(tag: &str, seed: &Key, program_id: &Key) -> (r: Option<
    (Key, u8),
>)
    ensures
        match r {
            Some((k, bump)) => program_address_of(tag@, seed@, program_id@) == Some((k@, bump)),
            None => program_address_of(tag@, seed@, program_id@) is None,
        },
{
    let program = Pubkey::new_from_array(program_id.0);
    let found = Pubkey::try_find_program_address(&[tag.as_bytes(), &seed.0], &program);
    found.map(|(k, bump)| (Key(k.to_bytes()), bump))
}

} // verus!
