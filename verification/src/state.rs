use vstd::prelude::*;
use anchor_lang::prelude::Pubkey;
use anchor_lang::solana_program::instruction::AccountMeta;
use anchor_lang::solana_program::instruction::Instruction;

verus! {

/// A registry: the owners who may approve proposals against it and the number
/// of approvals that execution asks for.
#[derive(Debug, PartialEq, Eq)]
pub struct Multisig {
    /// The owners, in the order that proposals index their approvals by.
    pub owners: Vec<Pubkey>,
    /// How many owners have to approve before a proposal may be executed.
    pub threshold: u8,
    /// The byte from which the ledger derives the registry's signing authority.
    pub nonce: u8,
    /// Counts changes of the owner set. Proposals remember its value.
    pub owner_set_seqno: u32,
}

/// What a [`Multisig`] holds, as mathematical values.
pub struct MultisigView {
    pub owners: Seq<Pubkey>,
    pub threshold: u8,
    pub nonce: u8,
    pub owner_set_seqno: u32,
}

impl View for Multisig {
    type V = MultisigView;

    open spec fn view(&self) -> MultisigView {
        MultisigView {
            owners: self.owners@,
            threshold: self.threshold,
            nonce: self.nonce,
            owner_set_seqno: self.owner_set_seqno,
        }
    }
}

impl MultisigView {
    /// A registry is well formed when it has at least one owner, no owner
    /// occurs twice, and the threshold lies between one and the owner count.
    pub open spec fn wf(self) -> bool {
        &&& self.owners.len() > 0
        &&& self.owners.no_duplicates()
        &&& 1 <= self.threshold <= self.owners.len()
    }
}

impl Multisig {
    /// Well-formedness of the registry: see [`MultisigView::wf`].
    pub open spec fn wf(&self) -> bool {
        self@.wf()
    }
}

/// One account of a proposed call: its key and the two access flags that the
/// call is to be dispatched with.
#[derive(Debug, PartialEq, Eq)]
pub struct TransactionAccount {
    pub pubkey: Pubkey,
    pub is_signer: bool,
    pub is_writable: bool,
}

impl TransactionAccount {
    /// The ledger's descriptor of this account: same key, same flags.
    pub open spec fn meta(self) -> AccountMeta {
        AccountMeta {
            pubkey: self.pubkey,
            is_signer: self.is_signer,
            is_writable: self.is_writable,
        }
    }
}

/// A proposal: one call that the owners of a registry may approve and that is
/// dispatched at most once.
#[derive(Debug, PartialEq, Eq)]
pub struct Transaction {
    /// The registry that the proposal was made against.
    pub multisig: Pubkey,
    /// The program that the call goes to.
    pub program_id: Pubkey,
    /// The accounts of the call, in call order.
    pub accounts: Vec<TransactionAccount>,
    /// The payload of the call. The engine does not interpret it.
    pub data: Vec<u8>,
    /// One flag per owner of the registry, in the registry's order:
    /// `signers[i]` says that owner `i` has approved.
    pub signers: Vec<bool>,
    /// Whether the call was dispatched successfully.
    pub did_execute: bool,
    /// The registry's `owner_set_seqno` when the proposal was created.
    pub owner_set_seqno: u32,
}

/// What a [`Transaction`] holds, as mathematical values.
pub struct TransactionView {
    pub multisig: Pubkey,
    pub program_id: Pubkey,
    pub accounts: Seq<TransactionAccount>,
    pub data: Seq<u8>,
    pub signers: Seq<bool>,
    pub did_execute: bool,
    pub owner_set_seqno: u32,
}

impl View for Transaction {
    type V = TransactionView;

    open spec fn view(&self) -> TransactionView {
        TransactionView {
            multisig: self.multisig,
            program_id: self.program_id,
            accounts: self.accounts@,
            data: self.data@,
            signers: self.signers@,
            did_execute: self.did_execute,
            owner_set_seqno: self.owner_set_seqno,
        }
    }
}

/// The call that the ledger is asked to dispatch, as mathematical values.
pub struct Envelope {
    pub target: Pubkey,
    pub metas: Seq<AccountMeta>,
    pub payload: Seq<u8>,
}

/// What an `Instruction` of the ledger holds.
pub open spec fn envelope_of(instruction: Instruction) -> Envelope {
    Envelope {
        target: instruction.program_id,
        metas: instruction.accounts@,
        payload: instruction.data@,
    }
}

impl TransactionView {
    /// A proposal fits a registry when it was made under the registry's
    /// present owner set and holds one approval entry per owner.
    pub open spec fn fits(self, registry: MultisigView) -> bool {
        &&& self.owner_set_seqno == registry.owner_set_seqno
        &&& self.signers.len() == registry.owners.len()
    }

    /// The call that the proposal stands for: its target, one descriptor per
    /// account with the stored flags, and its payload.
    pub open spec fn envelope(self) -> Envelope {
        Envelope {
            target: self.program_id,
            metas: self.accounts.map_values(|account: TransactionAccount| account.meta()),
            payload: self.data,
        }
    }
}

} // verus!

verus! {

impl Clone for TransactionAccount {
    fn clone(&self) -> (copy: TransactionAccount)
        ensures
            copy == *self,
    {
        TransactionAccount {
            pubkey: self.pubkey.clone(),
            is_signer: self.is_signer,
            is_writable: self.is_writable,
        }
    }
}

impl Clone for Multisig {
    fn clone(&self) -> (copy: Multisig)
        ensures
            copy@ == self@,
    {
        let owners = self.owners.clone();
        proof {
            assert(owners@ =~= self.owners@);
        }
        Multisig {
            owners,
            threshold: self.threshold,
            nonce: self.nonce,
            owner_set_seqno: self.owner_set_seqno,
        }
    }
}

impl Clone for Transaction {
    fn clone(&self) -> (copy: Transaction)
        ensures
            copy@ == self@,
    {
        let accounts = self.accounts.clone();
        let data = self.data.clone();
        let signers = self.signers.clone();
        proof {
            assert(accounts@ =~= self.accounts@);
            assert(data@ =~= self.data@);
            assert(signers@ =~= self.signers@);
        }
        Transaction {
            multisig: self.multisig.clone(),
            program_id: self.program_id.clone(),
            accounts,
            data,
            signers,
            did_execute: self.did_execute,
            owner_set_seqno: self.owner_set_seqno,
        }
    }
}

impl From<&TransactionAccount> for AccountMeta {
    /// The ledger's descriptor of a stored account, built by the ledger's own
    /// constructor for writable or for read-only accounts.
    fn from(account: &TransactionAccount) -> (meta: AccountMeta)
        ensures
            meta == account.meta(),
    {
        if account.is_writable {
            AccountMeta::new(account.pubkey, account.is_signer)
        } else {
            AccountMeta::new_readonly(account.pubkey, account.is_signer)
        }
    }
}

impl vstd::std_specs::convert::FromSpecImpl<&TransactionAccount> for AccountMeta {
    open spec fn obeys_from_spec() -> bool {
        true
    }

    open spec fn from_spec(account: &TransactionAccount) -> AccountMeta {
        account.meta()
    }
}

} // verus!
