//! What the engine takes from the ledger crate: the key type, the two types of
//! the call envelope, and the few functions on them that the engine calls.
//! Their contracts are stated here and believed, not proved.

use vstd::prelude::*;
use anchor_lang::prelude::Pubkey;
use anchor_lang::solana_program::instruction::AccountMeta;
use anchor_lang::solana_program::instruction::Instruction;

verus! {

/// `Pubkey` is the ledger's identity key. The engine never looks inside one:
/// it stores keys, hands them on, and compares them with [`same_key`].
#[verifier::external_type_specification]
#[verifier::external_body]
pub struct ExPubkey(Pubkey);

/// `AccountMeta` describes one account of a call to the ledger: its key, and
/// whether it signs and whether it may be written. Its three fields are
/// public, and Verus reads them from the ledger crate's own definition.
#[verifier::external_type_specification]
pub struct ExAccountMeta(AccountMeta);

/// `Instruction` is the call envelope that the ledger dispatches: the target
/// program, the accounts it touches and the payload. Its three fields are
/// public, and Verus reads them from the ledger crate's own definition.
#[verifier::external_type_specification]
pub struct ExInstruction(Instruction);

/// `AccountMeta::new` builds the descriptor of a writable account: it keeps
/// the key and the signer flag it is given and sets the writable flag.
pub assume_specification[ AccountMeta::new ](pubkey: Pubkey, is_signer: bool) -> (meta: AccountMeta)
    ensures
        meta.pubkey == pubkey,
        meta.is_signer == is_signer,
        meta.is_writable,
;

/// `AccountMeta::new_readonly` builds the descriptor of a read-only account:
/// it keeps the key and the signer flag it is given and clears the writable flag.
pub assume_specification[ AccountMeta::new_readonly ](pubkey: Pubkey, is_signer: bool) -> (meta: AccountMeta)
    ensures
        meta.pubkey == pubkey,
        meta.is_signer == is_signer,
        !meta.is_writable,
;

/// `Pubkey`'s `clone`, which the ledger crate derives: the copy is the same
/// key.
pub assume_specification[ <Pubkey as Clone>::clone ](key: &Pubkey) -> (copy: Pubkey)
    ensures
        copy == *key,
;

/// Compares two keys with `Pubkey`'s own `==`, which the ledger crate derives
/// over the 32 bytes a key holds. The contract claims that this comparison is
/// equality of the two keys as values.
#[verifier::external_body]
pub(crate) fn same_key(a: &Pubkey, b: &Pubkey) -> (same: bool)
    ensures
        same == (*a == *b),
{
    a == b
}

} // verus!
