use vstd::prelude::*;
use anchor_lang::prelude::Pubkey;
use crate::error::MultisigError;
use crate::model::approval_count;
use crate::model::approved;
use crate::model::approved_by_each;
use crate::model::created;
use crate::model::execution_gate;
use crate::model::position;
use crate::model::proposed;
use crate::model::settled;
use crate::model::initial_signers;
use crate::model::lemma_position;
use crate::model::lemma_position_is;
use crate::state::MultisigView;
use crate::state::TransactionAccount;
use crate::state::TransactionView;

verus! {

/// An owner list in which one identity stands at two places is refused with
/// `DuplicateOwners`, whatever the threshold.
pub proof fn repeated_owner_is_refused(owners: Seq<Pubkey>, threshold: u8, nonce: u8, i: int, j: int)
    requires
        0 <= i < owners.len(),
        0 <= j < owners.len(),
        i != j,
        owners[i] == owners[j],
    ensures
        created(owners, threshold, nonce) == Err::<MultisigView, MultisigError>(
            MultisigError::DuplicateOwners,
        ),
{
}

/// For a non-empty list of distinct owners, creation succeeds exactly for the
/// thresholds from one to the number of owners, and every other threshold is
/// refused with `InvalidThreshold`. A registry that was created is well formed.
pub proof fn threshold_bounds(owners: Seq<Pubkey>, threshold: u8, nonce: u8)
    requires
        owners.len() > 0,
        owners.no_duplicates(),
    ensures
        threshold == 0 || threshold > owners.len() ==> created(owners, threshold, nonce) == Err::<
            MultisigView,
            MultisigError,
        >(MultisigError::InvalidThreshold),
        1 <= threshold <= owners.len() ==> created(owners, threshold, nonce) == Ok::<
            MultisigView,
            MultisigError,
        >(MultisigView { owners, threshold, nonce, owner_set_seqno: 0 }),
        created(owners, threshold, nonce) matches Ok(registry) ==> registry.wf(),
{
}

/// A proposal made by the owner at index `i` carries that owner's approval
/// and no other: its bitmap has one entry per owner, `true` at `i` alone.
pub proof fn proposer_alone_has_approved(
    registry: MultisigView,
    registry_key: Pubkey,
    i: int,
    program_id: Pubkey,
    accounts: Seq<TransactionAccount>,
    data: Seq<u8>,
)
    requires
        registry.wf(),
        0 <= i < registry.owners.len(),
    ensures
        proposed(registry, registry_key, registry.owners[i], program_id, accounts, data) matches Ok(
            proposal,
        ) && {
            &&& proposal.signers.len() == registry.owners.len()
            &&& forall|k: int| 0 <= k < proposal.signers.len() ==> proposal.signers[k] == (k == i)
            &&& approval_count(proposal.signers) == 1
            &&& !proposal.did_execute
            &&& proposal.owner_set_seqno == registry.owner_set_seqno
        },
{
    lemma_position_is(registry.owners, registry.owners[i], i);
    lemma_single_approval(registry.owners.len(), i);
}

/// A bitmap that is set at one place only holds one approval.
proof fn lemma_single_approval(len: nat, i: int)
    requires
        0 <= i < len,
    ensures
        approval_count(initial_signers(len, i)) == 1,
    decreases len,
{
    let signers = initial_signers(len, i);
    if i == len - 1 {
        assert(signers.drop_last() =~= Seq::new((len - 1) as nat, |k: int| false));
        lemma_no_approval((len - 1) as nat);
    } else {
        assert(signers.drop_last() =~= initial_signers((len - 1) as nat, i));
        lemma_single_approval((len - 1) as nat, i);
    }
}

/// A bitmap that is set nowhere holds no approval.
proof fn lemma_no_approval(len: nat)
    ensures
        approval_count(Seq::new(len, |k: int| false)) == 0,
    decreases len,
{
    if len > 0 {
        assert(Seq::new(len, |k: int| false).drop_last() =~= Seq::new(
            (len - 1) as nat,
            |k: int| false,
        ));
        lemma_no_approval((len - 1) as nat);
    }
}

/// Every proposal fits the registry it was made against, and neither an
/// approval nor the record of a dispatch changes that.
pub proof fn proposal_fits_its_registry(
    registry: MultisigView,
    registry_key: Pubkey,
    proposer: Pubkey,
    program_id: Pubkey,
    accounts: Seq<TransactionAccount>,
    data: Seq<u8>,
    proposal: TransactionView,
    owner: Pubkey,
    dispatched: bool,
)
    ensures
        proposed(registry, registry_key, proposer, program_id, accounts, data) matches Ok(fresh)
            ==> fresh.fits(registry),
        proposal.fits(registry) ==> (approved(proposal, registry, owner) matches Ok(after)
            ==> after.fits(registry)),
        settled(proposal, dispatched).fits(registry) == proposal.fits(registry),
{
    lemma_position(registry.owners, owner);
}

/// Approving twice is approving once: a second approval by the same owner is
/// accepted and leaves the proposal exactly as the first one left it.
pub proof fn approval_is_idempotent(proposal: TransactionView, registry: MultisigView, owner: Pubkey)
    requires
        proposal.fits(registry),
    ensures
        approved(proposal, registry, owner) matches Ok(once) ==> approved(once, registry, owner)
            == Ok::<TransactionView, MultisigError>(once),
{
    if approved(proposal, registry, owner) is Ok {
        let once = approved(proposal, registry, owner)->Ok_0;
        let i = position(registry.owners, owner)->Some_0;
        lemma_position(registry.owners, owner);
        assert(once.signers.update(i, true) =~= once.signers);
    }
}

/// Approval only adds: an accepted approval sets the approver's entry and
/// changes nothing else of the proposal, so no approval is ever taken back
/// and the number of approvals does not fall.
pub proof fn approval_only_adds(proposal: TransactionView, registry: MultisigView, owner: Pubkey)
    requires
        proposal.fits(registry),
    ensures
        approved(proposal, registry, owner) matches Ok(after) ==> {
            &&& after.signers.len() == proposal.signers.len()
            &&& forall|k: int|
                0 <= k < proposal.signers.len() && proposal.signers[k] ==> after.signers[k]
            &&& approval_count(after.signers) >= approval_count(proposal.signers)
            &&& after == TransactionView { signers: after.signers, ..proposal }
        },
{
    if approved(proposal, registry, owner) is Ok {
        let i = position(registry.owners, owner)->Some_0;
        lemma_position(registry.owners, owner);
        lemma_count_after_update(proposal.signers, i);
    }
}

/// Setting one entry of a bitmap adds one approval if the entry was clear and
/// none if it was set.
proof fn lemma_count_after_update(signers: Seq<bool>, i: int)
    requires
        0 <= i < signers.len(),
    ensures
        approval_count(signers.update(i, true)) == approval_count(signers) + if signers[i] {
            0nat
        } else {
            1nat
        },
    decreases signers.len(),
{
    let updated = signers.update(i, true);
    if i == signers.len() - 1 {
        assert(updated.drop_last() =~= signers.drop_last());
    } else {
        assert(updated.drop_last() =~= signers.drop_last().update(i, true));
        lemma_count_after_update(signers.drop_last(), i);
    }
}

/// Approvals by two owners commute: whichever of them approves first, the
/// proposal ends up the same.
pub proof fn approvals_commute(
    proposal: TransactionView,
    registry: MultisigView,
    first: Pubkey,
    second: Pubkey,
)
    requires
        proposal.fits(registry),
    ensures
        approved_by_each(proposal, registry, seq![first, second]) == approved_by_each(
            proposal,
            registry,
            seq![second, first],
        ),
{
    lemma_two_approvals(proposal, registry, first, second);
    lemma_two_approvals(proposal, registry, second, first);
    if proposal.owner_set_seqno == registry.owner_set_seqno {
        if position(registry.owners, first) is Some && position(registry.owners, second) is Some {
            let i = position(registry.owners, first)->Some_0;
            let j = position(registry.owners, second)->Some_0;
            lemma_position(registry.owners, first);
            lemma_position(registry.owners, second);
            assert(proposal.signers.update(i, true).update(j, true) =~= proposal.signers.update(
                j,
                true,
            ).update(i, true));
        }
    }
}

/// What two approvals in a row come to.
proof fn lemma_two_approvals(
    proposal: TransactionView,
    registry: MultisigView,
    first: Pubkey,
    second: Pubkey,
)
    ensures
        approved_by_each(proposal, registry, seq![first, second]) == {
            let one = match approved(proposal, registry, first) {
                Ok(after) => after,
                Err(_) => proposal,
            };
            match approved(one, registry, second) {
                Ok(after) => after,
                Err(_) => one,
            }
        },
{
    let both = seq![first, second];
    assert(both.drop_last() =~= seq![first]);
    assert(seq![first].drop_last() =~= Seq::<Pubkey>::empty());
    assert(both.last() == second);
    assert(seq![first].last() == first);
    reveal_with_fuel(approved_by_each, 3);
}

/// A proposal that was not executed and whose registry has kept its owner set
/// is refused with `NotEnoughSigners` while it holds fewer approvals than the
/// threshold, and may be dispatched as soon as it holds that many.
pub proof fn quorum_gate(proposal: TransactionView, registry: MultisigView)
    requires
        !proposal.did_execute,
        proposal.owner_set_seqno == registry.owner_set_seqno,
    ensures
        approval_count(proposal.signers) < registry.threshold ==> execution_gate(proposal, registry)
            == Err::<(), MultisigError>(MultisigError::NotEnoughSigners),
        approval_count(proposal.signers) >= registry.threshold ==> execution_gate(
            proposal,
            registry,
        ) == Ok::<(), MultisigError>(()),
{
}

/// A proposal whose owner-set counter differs from the registry's is never
/// dispatched: unless it was executed before, it is refused with
/// `OwnerSetChanged`, however many approvals it holds.
pub proof fn stale_proposal_is_refused(proposal: TransactionView, registry: MultisigView)
    requires
        proposal.owner_set_seqno != registry.owner_set_seqno,
    ensures
        execution_gate(proposal, registry) is Err,
        !proposal.did_execute ==> execution_gate(proposal, registry) == Err::<(), MultisigError>(
            MultisigError::OwnerSetChanged,
        ),
        forall|owner: Pubkey| #[trigger]
            approved(proposal, registry, owner) == Err::<TransactionView, MultisigError>(
                MultisigError::OwnerSetChanged,
            ),
{
}

/// Execution happens once. After a successful dispatch the proposal is
/// refused with `AlreadyExecuted` for good: no approvals that follow, by
/// whomever and against whichever registry, make it executable again.
pub proof fn executes_once(
    proposal: TransactionView,
    registry: MultisigView,
    approvers: Seq<Pubkey>,
    later_registry: MultisigView,
)
    ensures
        execution_gate(
            approved_by_each(settled(proposal, true), registry, approvers),
            later_registry,
        ) == Err::<(), MultisigError>(MultisigError::AlreadyExecuted),
{
    approvals_touch_the_bitmap_only(settled(proposal, true), registry, approvers);
}

/// Approvals touch the bitmap only: whether the proposal was executed, what
/// it calls and which owner set it was made under stay as they are.
pub proof fn approvals_touch_the_bitmap_only(
    proposal: TransactionView,
    registry: MultisigView,
    approvers: Seq<Pubkey>,
)
    ensures
        approved_by_each(proposal, registry, approvers) == (TransactionView {
            signers: approved_by_each(proposal, registry, approvers).signers,
            ..proposal
        }),
    decreases approvers.len(),
{
    if approvers.len() > 0 {
        approvals_touch_the_bitmap_only(proposal, registry, approvers.drop_last());
    }
}

/// A failed dispatch consumes nothing: the proposal is as it was, and it may
/// be dispatched afterwards exactly if it might have been dispatched before.
pub proof fn failed_dispatch_can_be_retried(proposal: TransactionView, registry: MultisigView)
    ensures
        settled(proposal, false) == proposal,
        execution_gate(settled(proposal, false), registry) == execution_gate(proposal, registry),
{
}

/// An identity that is not among the owners can neither propose nor approve:
/// its proposal is refused with `InvalidOwner`, and so is its approval of a
/// proposal made under the registry's present owner set.
pub proof fn stranger_is_refused(
    registry: MultisigView,
    registry_key: Pubkey,
    stranger: Pubkey,
    program_id: Pubkey,
    accounts: Seq<TransactionAccount>,
    data: Seq<u8>,
    proposal: TransactionView,
)
    requires
        !registry.owners.contains(stranger),
    ensures
        proposed(registry, registry_key, stranger, program_id, accounts, data) == Err::<
            TransactionView,
            MultisigError,
        >(MultisigError::InvalidOwner),
        proposal.owner_set_seqno == registry.owner_set_seqno ==> approved(
            proposal,
            registry,
            stranger,
        ) == Err::<TransactionView, MultisigError>(MultisigError::InvalidOwner),
{
}

} // verus!
