//! Account identities.

use vstd::prelude::*;

verus! {

/// `solana_program::pubkey::Pubkey`, the 32-byte account address of the host
/// runtime, under the name by which `anchor_lang::prelude` hands it on. Its
/// bytes are hidden from the verifier: a key is carried through the handlers
/// and compared with [`same_key`], nothing else.
#[verifier::external_type_specification]
#[verifier::external_body]
pub struct ExPubkey(anchor_lang::prelude::Pubkey);

/// Calls `PartialEq::eq` of `Pubkey`, which `solana_program` derives over
/// the key's 32 bytes. Trusted: the result is `true` exactly for two equal
/// keys.
#[verifier::external_body]
pub(crate) fn same_key(a: &anchor_lang::prelude::Pubkey, b: &anchor_lang::prelude::Pubkey) -> (same: bool)
    ensures
        same == (*a == *b),
{
    a == b
}

/// `Clone::clone` of `Pubkey`, which `solana_program` derives for this
/// `Copy` type. Trusted: the copy is the key itself.
pub assume_specification[ <anchor_lang::prelude::Pubkey as Clone>::clone ](
    key: &anchor_lang::prelude::Pubkey,
) -> (copy: anchor_lang::prelude::Pubkey)
    ensures
        copy == *key,
;

} // verus!
