use vstd::prelude::*;
use anchor_lang::prelude::Pubkey;
use crate::error::MultisigError;
use crate::state::MultisigView;
use crate::state::TransactionAccount;
use crate::state::TransactionView;

verus! {

/// Whether `i` is the first place at which `key` stands in `owners`.
pub open spec fn is_position(owners: Seq<Pubkey>, key: Pubkey, i: int) -> bool {
    &&& 0 <= i < owners.len()
    &&& owners[i] == key
    &&& forall|j: int| 0 <= j < i ==> owners[j] != key
}

/// The first place at which `key` stands in `owners`, if it stands there at all.
pub open spec fn position(owners: Seq<Pubkey>, key: Pubkey) -> Option<int> {
    if owners.contains(key) {
        Some(choose|i: int| is_position(owners, key, i))
    } else {
        None
    }
}

/// If `i` is the first place of `key` in `owners`, it is the place that
/// [`position`] names.
pub proof fn lemma_position_is(owners: Seq<Pubkey>, key: Pubkey, i: int)
    requires
        is_position(owners, key, i),
    ensures
        position(owners, key) == Some(i),
{
    assert(owners.contains(key));
    let chosen = choose|k: int| is_position(owners, key, k);
    assert(is_position(owners, key, chosen));
    if chosen < i {
        assert(owners[chosen] != key);
    } else if i < chosen {
        assert(owners[i] != key);
    }
}

/// If `key` stands at `at` in `owners`, it has a first place there.
proof fn lemma_first_place_exists(owners: Seq<Pubkey>, key: Pubkey, at: int)
    requires
        0 <= at < owners.len(),
        owners[at] == key,
    ensures
        exists|i: int| is_position(owners, key, i),
    decreases at,
{
    if forall|j: int| 0 <= j < at ==> owners[j] != key {
        assert(is_position(owners, key, at));
    } else {
        let earlier = choose|j: int| 0 <= j < at && owners[j] == key;
        lemma_first_place_exists(owners, key, earlier);
    }
}

/// What [`position`] names is the first place of `key` in `owners`, and it
/// names none exactly if `key` does not stand in `owners`.
pub proof fn lemma_position(owners: Seq<Pubkey>, key: Pubkey)
    ensures
        match position(owners, key) {
            Some(i) => is_position(owners, key, i),
            None => !owners.contains(key),
        },
{
    if owners.contains(key) {
        let at = choose|i: int| 0 <= i < owners.len() && owners[i] == key;
        lemma_first_place_exists(owners, key, at);
    }
}

/// The number of approvals in an approval bitmap.
pub open spec fn approval_count(signers: Seq<bool>) -> nat
    decreases signers.len(),
{
    if signers.len() == 0 {
        0
    } else {
        approval_count(signers.drop_last()) + if signers.last() {
            1nat
        } else {
            0nat
        }
    }
}

/// The bitmap of a fresh proposal: one entry per owner, set only at `proposer`.
pub open spec fn initial_signers(owner_count: nat, proposer: int) -> Seq<bool> {
    Seq::new(owner_count, |k: int| k == proposer)
}

/// Registry creation. The owner list is checked for a repeated identity first,
/// for emptiness second, and the threshold last.
pub open spec fn created(owners: Seq<Pubkey>, threshold: u8, nonce: u8) -> Result<
    MultisigView,
    MultisigError,
> {
    if !owners.no_duplicates() {
        Err(MultisigError::DuplicateOwners)
    } else if owners.len() == 0 {
        Err(MultisigError::NoOwners)
    } else if !(1 <= threshold <= owners.len()) {
        Err(MultisigError::InvalidThreshold)
    } else {
        Ok(MultisigView { owners, threshold, nonce, owner_set_seqno: 0 })
    }
}

/// Proposal creation by `proposer` against the registry `registry`, whose
/// identity on the ledger is `registry_key`.
pub open spec fn proposed(
    registry: MultisigView,
    registry_key: Pubkey,
    proposer: Pubkey,
    program_id: Pubkey,
    accounts: Seq<TransactionAccount>,
    data: Seq<u8>,
) -> Result<TransactionView, MultisigError> {
    match position(registry.owners, proposer) {
        None => Err(MultisigError::InvalidOwner),
        Some(i) => Ok(
            TransactionView {
                multisig: registry_key,
                program_id,
                accounts,
                data,
                signers: initial_signers(registry.owners.len(), i),
                did_execute: false,
                owner_set_seqno: registry.owner_set_seqno,
            },
        ),
    }
}

/// Approval of `proposal` by `owner`. Only the owner's entry of the bitmap
/// changes, and it can only become `true`.
pub open spec fn approved(proposal: TransactionView, registry: MultisigView, owner: Pubkey) -> Result<
    TransactionView,
    MultisigError,
> {
    if proposal.owner_set_seqno != registry.owner_set_seqno {
        Err(MultisigError::OwnerSetChanged)
    } else {
        match position(registry.owners, owner) {
            None => Err(MultisigError::InvalidOwner),
            Some(i) => Ok(TransactionView { signers: proposal.signers.update(i, true), ..proposal }),
        }
    }
}

/// The proposal after each of `approvers` has tried, in turn, to approve it.
/// An approval that is refused leaves the proposal as it was.
pub open spec fn approved_by_each(
    proposal: TransactionView,
    registry: MultisigView,
    approvers: Seq<Pubkey>,
) -> TransactionView
    decreases approvers.len(),
{
    if approvers.len() == 0 {
        proposal
    } else {
        let before = approved_by_each(proposal, registry, approvers.drop_last());
        match approved(before, registry, approvers.last()) {
            Ok(after) => after,
            Err(_) => before,
        }
    }
}

/// Whether `proposal` may be dispatched now, and if not, why not.
pub open spec fn execution_gate(proposal: TransactionView, registry: MultisigView) -> Result<
    (),
    MultisigError,
> {
    if proposal.did_execute {
        Err(MultisigError::AlreadyExecuted)
    } else if proposal.owner_set_seqno != registry.owner_set_seqno {
        Err(MultisigError::OwnerSetChanged)
    } else if approval_count(proposal.signers) < registry.threshold {
        Err(MultisigError::NotEnoughSigners)
    } else {
        Ok(())
    }
}

/// The proposal after the ledger has reported how the dispatch went: marked
/// as executed if the dispatch succeeded, untouched if it failed.
pub open spec fn settled(proposal: TransactionView, dispatched: bool) -> TransactionView {
    if dispatched {
        TransactionView { did_execute: true, ..proposal }
    } else {
        proposal
    }
}

} // verus!
