use vstd::prelude::*;
use anchor_lang::prelude::Pubkey;
use anchor_lang::solana_program::instruction::AccountMeta;
use anchor_lang::solana_program::instruction::Instruction;
use crate::error::MultisigError;
use crate::model::approval_count;
use crate::model::approved;
use crate::model::created;
use crate::model::execution_gate;
use crate::model::initial_signers;
use crate::model::proposed;
use crate::model::settled;
use crate::owners::assert_unique_owners;
use crate::owners::find_owner;
use crate::state::envelope_of;
use crate::state::MultisigView;
use crate::state::TransactionView;
use crate::state::Multisig;
use crate::state::Transaction;
use crate::state::TransactionAccount;

verus! {

/// Creates a registry with the given owners, threshold and authority nonce.
///
/// The owner list is refused with `DuplicateOwners` if an identity occurs
/// twice in it, else with `NoOwners` if it is empty; the threshold is refused
/// with `InvalidThreshold` if it is zero or exceeds the number of owners.
/// The new registry starts with `owner_set_seqno` zero.
pub fn create_multisig(owners: Vec<Pubkey>, threshold: u8, nonce: u8) -> (result: Result<
    Multisig,
    MultisigError,
>)
    ensures
        match result {
            Ok(multisig) => {
                &&& created(owners@, threshold, nonce) == Ok::<MultisigView, MultisigError>(multisig@)
                &&& multisig.wf()
            },
            Err(e) => created(owners@, threshold, nonce) == Err::<MultisigView, MultisigError>(e),
        },
{
    match assert_unique_owners(owners.as_slice()) {
        Err(e) => {
            return Err(e);
        },
        Ok(()) => {},
    }
    if owners.len() == 0 {
        return Err(MultisigError::NoOwners);
    }
    if threshold == 0 || threshold as usize > owners.len() {
        return Err(MultisigError::InvalidThreshold);
    }
    Ok(Multisig { owners, threshold, nonce, owner_set_seqno: 0 })
}

/// Builds the approval bitmap of a fresh proposal: `owner_count` entries, all
/// `false` but the proposer's.
fn fresh_signers(owner_count: usize, proposer: usize) -> (signers: Vec<bool>)
    requires
        proposer < owner_count,
    ensures
        signers@ == initial_signers(owner_count as nat, proposer as int),
{
    let mut signers: Vec<bool> = Vec::new();
    let mut k: usize = 0;
    while k < owner_count
        invariant
            k <= owner_count,
            signers@.len() == k,
            forall|n: int| 0 <= n < k ==> signers@[n] == (n == proposer),
        decreases owner_count - k,
    {
        signers.push(k == proposer);
        k = k + 1;
    }
    proof {
        assert(signers@ =~= initial_signers(owner_count as nat, proposer as int));
    }
    signers
}

/// Creates a proposal against `multisig`, whose identity on the ledger is
/// `multisig_key`, for a call to `program_id` with the given accounts and
/// payload.
///
/// The proposer has to be an owner, else the proposal is refused with
/// `InvalidOwner`. Proposing counts as approving: the new proposal carries the
/// proposer's approval and no other. The call is stored as it is given.
pub fn propose_transaction(
    multisig: &Multisig,
    multisig_key: Pubkey,
    proposer: Pubkey,
    program_id: Pubkey,
    accounts: Vec<TransactionAccount>,
    data: Vec<u8>,
) -> (result: Result<Transaction, MultisigError>)
    ensures
        match result {
            Ok(transaction) => proposed(
                multisig@,
                multisig_key,
                proposer,
                program_id,
                accounts@,
                data@,
            ) == Ok::<TransactionView, MultisigError>(transaction@),
            Err(e) => proposed(multisig@, multisig_key, proposer, program_id, accounts@, data@)
                == Err::<TransactionView, MultisigError>(e),
        },
{
    let owner_index: usize = match find_owner(&multisig.owners, &proposer) {
        Some(i) => i,
        None => {
            return Err(MultisigError::InvalidOwner);
        },
    };
    let signers = fresh_signers(multisig.owners.len(), owner_index);
    Ok(
        Transaction {
            multisig: multisig_key,
            program_id,
            accounts,
            data,
            signers,
            did_execute: false,
            owner_set_seqno: multisig.owner_set_seqno,
        },
    )
}

/// Adds the approval of `owner` to a proposal.
///
/// The approval is refused with `OwnerSetChanged` if the registry's owner set
/// changed after the proposal was created, else with `InvalidOwner` if `owner`
/// is not an owner of the registry. Approving again changes nothing. A
/// proposal that was executed before may still be approved, which does not
/// make it executable again. A refusal leaves the proposal as it was.
///
/// A proposal made under the registry's present owner set has to hold one
/// approval entry per owner, as every proposal does that was made against
/// the registry.
pub fn approve_transaction(transaction: &mut Transaction, multisig: &Multisig, owner: Pubkey) -> (result:
    Result<(), MultisigError>)
    requires
        old(transaction).owner_set_seqno == multisig.owner_set_seqno ==> old(transaction)@.fits(
            multisig@,
        ),
    ensures
        match result {
            Ok(()) => approved(old(transaction)@, multisig@, owner) == Ok::<
                TransactionView,
                MultisigError,
            >(final(transaction)@),
            Err(e) => {
                &&& approved(old(transaction)@, multisig@, owner) == Err::<
                    TransactionView,
                    MultisigError,
                >(e)
                &&& *final(transaction) == *old(transaction)
            },
        },
{
    if transaction.owner_set_seqno != multisig.owner_set_seqno {
        return Err(MultisigError::OwnerSetChanged);
    }
    let owner_index: usize = match find_owner(&multisig.owners, &owner) {
        Some(i) => i,
        None => {
            return Err(MultisigError::InvalidOwner);
        },
    };
    transaction.signers.set(owner_index, true);
    Ok(())
}

/// Counts the approvals in a bitmap.
pub fn count_approvals(signers: &Vec<bool>) -> (count: usize)
    ensures
        count == approval_count(signers@),
{
    let mut count: usize = 0;
    let mut i: usize = 0;
    while i < signers.len()
        invariant
            i <= signers.len(),
            count <= i,
            count == approval_count(signers@.take(i as int)),
        decreases signers.len() - i,
    {
        proof {
            assert(signers@.take(i + 1).drop_last() == signers@.take(i as int));
        }
        if signers[i] {
            count = count + 1;
        }
        i = i + 1;
    }
    proof {
        assert(signers@.take(i as int) == signers@);
    }
    count
}

/// Rebuilds the call that a proposal stands for, in the form that the ledger
/// dispatches: the target, one descriptor per stored account carrying exactly
/// the stored flags, and the payload.
pub fn build_instruction(transaction: &Transaction) -> (instruction: Instruction)
    ensures
        envelope_of(instruction) == transaction@.envelope(),
{
    let mut metas: Vec<AccountMeta> = Vec::new();
    let mut i: usize = 0;
    while i < transaction.accounts.len()
        invariant
            i <= transaction.accounts.len(),
            metas@.len() == i,
            forall|k: int| 0 <= k < i ==> metas@[k] == (#[trigger] transaction.accounts@[k]).meta(),
        decreases transaction.accounts.len() - i,
    {
        metas.push(AccountMeta::from(&transaction.accounts[i]));
        i = i + 1;
    }
    let instruction = Instruction {
        program_id: transaction.program_id,
        accounts: metas,
        data: transaction.data.clone(),
    };
    proof {
        assert(envelope_of(instruction).metas =~= transaction@.envelope().metas);
        assert(envelope_of(instruction).payload =~= transaction@.envelope().payload);
    }
    instruction
}

/// Decides whether a proposal may be dispatched and, if it may, rebuilds the
/// call to hand to the ledger.
///
/// The proposal is refused with `AlreadyExecuted` if it was executed before,
/// else with `OwnerSetChanged` if the registry's owner set changed after the
/// proposal was created, else with `NotEnoughSigners` if fewer owners than the
/// threshold have approved. Nothing is changed here: the caller dispatches the
/// returned call under the registry's authority and reports the outcome to
/// [`complete_execution`].
pub fn execute_transaction(transaction: &Transaction, multisig: &Multisig) -> (result: Result<
    Instruction,
    MultisigError,
>)
    ensures
        match result {
            Ok(instruction) => {
                &&& execution_gate(transaction@, multisig@) == Ok::<(), MultisigError>(())
                &&& envelope_of(instruction) == transaction@.envelope()
            },
            Err(e) => execution_gate(transaction@, multisig@) == Err::<(), MultisigError>(e),
        },
{
    if transaction.did_execute {
        return Err(MultisigError::AlreadyExecuted);
    }
    if transaction.owner_set_seqno != multisig.owner_set_seqno {
        return Err(MultisigError::OwnerSetChanged);
    }
    let signed_count: usize = count_approvals(&transaction.signers);
    if signed_count < multisig.threshold as usize {
        return Err(MultisigError::NotEnoughSigners);
    }
    Ok(build_instruction(transaction))
}

/// Records how the ledger's dispatch of a proposal's call went.
///
/// A successful dispatch marks the proposal as executed; a failed one leaves
/// it as it was, so that execution can be tried again. The outcome is handed
/// back as it came.
pub fn complete_execution<E>(transaction: &mut Transaction, outcome: Result<(), E>) -> (result: Result<(), E>)
    ensures
        result == outcome,
        final(transaction)@ == settled(old(transaction)@, outcome is Ok),
        outcome is Err ==> *final(transaction) == *old(transaction),
{
    if outcome.is_ok() {
        transaction.did_execute = true;
    }
    outcome
}

} // verus!
