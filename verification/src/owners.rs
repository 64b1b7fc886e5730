use vstd::prelude::*;
use anchor_lang::prelude::Pubkey;
use crate::error::MultisigError;
use crate::ledger::same_key;
use crate::model::is_position;
use crate::model::lemma_position_is;
use crate::model::position;

verus! {

/// Checks that no identity occurs twice in an owner list: every owner is
/// compared with each of the owners that come after it.
pub fn assert_unique_owners(owners: &[Pubkey]) -> (result: Result<(), MultisigError>)
    ensures
        owners@.no_duplicates() ==> result == Ok::<(), MultisigError>(()),
        !owners@.no_duplicates() ==> result == Err::<(), MultisigError>(
            MultisigError::DuplicateOwners,
        ),
{
    let mut i: usize = 0;
    while i < owners.len()
        invariant
            i <= owners.len(),
            forall|a: int, b: int| 0 <= a < i && a < b < owners.len() ==> owners@[a] != owners@[b],
        decreases owners.len() - i,
    {
        let mut j: usize = i + 1;
        while j < owners.len()
            invariant
                i < owners.len(),
                i < j <= owners.len(),
                forall|b: int| i < b < j ==> owners@[i as int] != owners@[b],
            decreases owners.len() - j,
        {
            if same_key(&owners[j], &owners[i]) {
                return Err(MultisigError::DuplicateOwners);
            }
            j = j + 1;
        }
        i = i + 1;
    }
    Ok(())
}

/// Finds the place of `key` among `owners`: the first index that holds it.
pub fn find_owner(owners: &Vec<Pubkey>, key: &Pubkey) -> (found: Option<usize>)
    ensures
        match found {
            Some(i) => {
                &&& is_position(owners@, *key, i as int)
                &&& position(owners@, *key) == Some(i as int)
            },
            None => {
                &&& !owners@.contains(*key)
                &&& position(owners@, *key) == None::<int>
            },
        },
{
    let mut i: usize = 0;
    while i < owners.len()
        invariant
            i <= owners.len(),
            forall|j: int| 0 <= j < i ==> owners@[j] != *key,
        decreases owners.len() - i,
    {
        if same_key(&owners[i], key) {
            proof {
                lemma_position_is(owners@, *key, i as int);
            }
            return Some(i);
        }
        i = i + 1;
    }
    None
}

} // verus!
