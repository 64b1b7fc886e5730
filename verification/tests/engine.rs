use anchor_lang::prelude::Pubkey;
use anchor_lang::solana_program::instruction::AccountMeta;
use anchor_lang::solana_program::program::invoke_signed;
use anchor_lang::solana_program::program_error::ProgramError;
use multisig::error::MultisigError;
use multisig::multisig::{
    approve_transaction, build_instruction, complete_execution, count_approvals, create_multisig,
    execute_transaction, propose_transaction,
};
use multisig::owners::{assert_unique_owners, find_owner};
use multisig::state::{Multisig, Transaction, TransactionAccount};

fn key(tag: u8) -> Pubkey {
    Pubkey::new_from_array([tag; 32])
}

fn numbered(n: u16) -> Pubkey {
    let mut bytes = [0u8; 32];
    bytes[0] = (n % 256) as u8;
    bytes[1] = (n / 256) as u8;
    Pubkey::new_from_array(bytes)
}

fn registry(owners: Vec<Pubkey>, threshold: u8) -> Multisig {
    create_multisig(owners, threshold, 254).unwrap()
}

fn plain_proposal(multisig: &Multisig, proposer: Pubkey) -> Transaction {
    propose_transaction(multisig, key(100), proposer, key(200), Vec::new(), vec![1, 2, 3]).unwrap()
}

fn dispatch(transaction: &Transaction, multisig: &Multisig) -> Result<(), ProgramError> {
    let instruction = execute_transaction(transaction, multisig).unwrap();
    let nonce = [multisig.nonce];
    let seeds: [&[u8]; 3] = [b"multisig-signer", transaction.multisig.as_ref(), &nonce];
    invoke_signed(&instruction, &[], &[&seeds])
}

#[test]
fn scenario_three_owners_threshold_two() {
    let (a, b, c) = (key(1), key(2), key(3));
    let multisig = create_multisig(vec![a, b, c], 2, 7).unwrap();
    assert_eq!(multisig.owners, vec![a, b, c]);
    assert_eq!(multisig.threshold, 2);
    assert_eq!(multisig.nonce, 7);
    assert_eq!(multisig.owner_set_seqno, 0);

    let mut transaction = plain_proposal(&multisig, b);
    assert_eq!(transaction.signers, vec![false, true, false]);

    assert_eq!(approve_transaction(&mut transaction, &multisig, a), Ok(()));
    assert_eq!(transaction.signers, vec![true, true, false]);

    let outcome = dispatch(&transaction, &multisig);
    assert_eq!(complete_execution(&mut transaction, outcome), Ok(()));
    assert!(transaction.did_execute);
    assert_eq!(transaction.signers, vec![true, true, false]);

    assert_eq!(
        execute_transaction(&transaction, &multisig),
        Err(MultisigError::AlreadyExecuted)
    );
}

#[test]
fn scenario_two_owners_threshold_two() {
    let (a, b) = (key(1), key(2));
    let multisig = registry(vec![a, b], 2);
    let mut transaction = plain_proposal(&multisig, a);
    assert_eq!(transaction.signers, vec![true, false]);
    assert_eq!(
        execute_transaction(&transaction, &multisig),
        Err(MultisigError::NotEnoughSigners)
    );
    assert!(!transaction.did_execute);

    assert_eq!(approve_transaction(&mut transaction, &multisig, b), Ok(()));
    let outcome = dispatch(&transaction, &multisig);
    assert_eq!(complete_execution(&mut transaction, outcome), Ok(()));
    assert!(transaction.did_execute);
}

#[test]
fn unique_owners_are_accepted() {
    assert_eq!(assert_unique_owners(&[]), Ok(()));
    assert_eq!(assert_unique_owners(&[key(1)]), Ok(()));
    assert_eq!(assert_unique_owners(&[key(1), key(2), key(3)]), Ok(()));
}

#[test]
fn repeated_owner_is_found_wherever_it_stands() {
    let dup = Err(MultisigError::DuplicateOwners);
    assert_eq!(assert_unique_owners(&[key(1), key(1)]), dup);
    assert_eq!(assert_unique_owners(&[key(1), key(2), key(1)]), dup);
    assert_eq!(assert_unique_owners(&[key(1), key(2), key(2)]), dup);
    assert_eq!(assert_unique_owners(&[key(1), key(2), key(3), key(4), key(2)]), dup);
}

#[test]
fn keys_are_compared_over_all_their_bytes() {
    let mut first = [9u8; 32];
    let mut second = [9u8; 32];
    first[31] = 1;
    second[31] = 2;
    let (a, b) = (Pubkey::new_from_array(first), Pubkey::new_from_array(second));
    assert_eq!(assert_unique_owners(&[a, b]), Ok(()));
    assert_eq!(find_owner(&vec![a, b], &b), Some(1));
    second[31] = 1;
    let again = Pubkey::new_from_array(second);
    assert_eq!(assert_unique_owners(&[a, again]), Err(MultisigError::DuplicateOwners));
}

#[test]
fn create_refuses_repeated_owners() {
    assert_eq!(
        create_multisig(vec![key(1), key(2), key(1)], 2, 0),
        Err(MultisigError::DuplicateOwners)
    );
}

#[test]
fn create_refuses_an_empty_owner_list() {
    assert_eq!(create_multisig(Vec::new(), 1, 0), Err(MultisigError::NoOwners));
    assert_eq!(create_multisig(Vec::new(), 0, 0), Err(MultisigError::NoOwners));
}

#[test]
fn create_refuses_thresholds_out_of_bounds() {
    let owners = vec![key(1), key(2), key(3)];
    assert_eq!(create_multisig(owners.clone(), 0, 0), Err(MultisigError::InvalidThreshold));
    assert_eq!(create_multisig(owners.clone(), 4, 0), Err(MultisigError::InvalidThreshold));
    assert_eq!(create_multisig(owners.clone(), 255, 0), Err(MultisigError::InvalidThreshold));
}

#[test]
fn create_accepts_every_threshold_in_bounds() {
    let owners = vec![key(1), key(2), key(3)];
    for threshold in 1u8..=3 {
        let multisig = create_multisig(owners.clone(), threshold, 9).unwrap();
        assert_eq!(multisig.owners, owners);
        assert_eq!(multisig.threshold, threshold);
        assert_eq!(multisig.nonce, 9);
        assert_eq!(multisig.owner_set_seqno, 0);
    }
}

#[test]
fn create_checks_owners_before_threshold() {
    assert_eq!(
        create_multisig(vec![key(1), key(1)], 0, 0),
        Err(MultisigError::DuplicateOwners)
    );
    assert_eq!(
        create_multisig(vec![key(1), key(1)], 9, 0),
        Err(MultisigError::DuplicateOwners)
    );
}

#[test]
fn create_counts_owners_beyond_a_byte() {
    let owners: Vec<Pubkey> = (0u16..300).map(numbered).collect();
    let multisig = create_multisig(owners.clone(), 255, 0).unwrap();
    assert_eq!(multisig.owners.len(), 300);
    assert_eq!(multisig.threshold, 255);
    let exactly: Vec<Pubkey> = (0u16..256).map(numbered).collect();
    assert_eq!(create_multisig(exactly, 1, 0).unwrap().threshold, 1);
}

#[test]
fn find_owner_gives_the_index() {
    let owners = vec![key(1), key(2), key(3)];
    assert_eq!(find_owner(&owners, &key(1)), Some(0));
    assert_eq!(find_owner(&owners, &key(3)), Some(2));
    assert_eq!(find_owner(&owners, &key(4)), None);
    assert_eq!(find_owner(&Vec::new(), &key(4)), None);
}

#[test]
fn propose_stores_the_call_as_given() {
    let multisig = registry(vec![key(1), key(2)], 1);
    let accounts = vec![
        TransactionAccount { pubkey: key(10), is_signer: true, is_writable: false },
        TransactionAccount { pubkey: key(11), is_signer: false, is_writable: true },
    ];
    let transaction = propose_transaction(
        &multisig,
        key(100),
        key(2),
        key(200),
        accounts.clone(),
        vec![0xde, 0xad, 0xbe, 0xef],
    )
    .unwrap();
    assert_eq!(transaction.multisig, key(100));
    assert_eq!(transaction.program_id, key(200));
    assert_eq!(transaction.accounts, accounts);
    assert_eq!(transaction.data, vec![0xde, 0xad, 0xbe, 0xef]);
    assert_eq!(transaction.signers, vec![false, true]);
    assert!(!transaction.did_execute);
    assert_eq!(transaction.owner_set_seqno, multisig.owner_set_seqno);
}

#[test]
fn propose_marks_the_proposer_alone() {
    let owners: Vec<Pubkey> = (1u8..=5).map(key).collect();
    let multisig = registry(owners.clone(), 3);
    for (i, owner) in owners.iter().enumerate() {
        let transaction = plain_proposal(&multisig, *owner);
        assert_eq!(transaction.signers.len(), owners.len());
        for (k, signed) in transaction.signers.iter().enumerate() {
            assert_eq!(*signed, k == i);
        }
    }
}

#[test]
fn propose_copies_the_registry_counter() {
    let mut multisig = registry(vec![key(1)], 1);
    multisig.owner_set_seqno = 41;
    assert_eq!(plain_proposal(&multisig, key(1)).owner_set_seqno, 41);
}

#[test]
fn propose_refuses_a_stranger() {
    let multisig = registry(vec![key(1), key(2)], 1);
    let before = multisig.clone();
    assert_eq!(
        propose_transaction(&multisig, key(100), key(9), key(200), Vec::new(), Vec::new()),
        Err(MultisigError::InvalidOwner)
    );
    assert_eq!(multisig, before);
}

#[test]
fn approve_twice_is_approve_once() {
    let multisig = registry(vec![key(1), key(2), key(3)], 3);
    let mut transaction = plain_proposal(&multisig, key(1));
    assert_eq!(approve_transaction(&mut transaction, &multisig, key(3)), Ok(()));
    let once = transaction.clone();
    assert_eq!(approve_transaction(&mut transaction, &multisig, key(3)), Ok(()));
    assert_eq!(transaction, once);
    assert_eq!(transaction.signers, vec![true, false, true]);
    assert_eq!(approve_transaction(&mut transaction, &multisig, key(1)), Ok(()));
    assert_eq!(transaction, once);
}

#[test]
fn approvals_in_either_order_agree() {
    let multisig = registry(vec![key(1), key(2), key(3)], 3);
    let mut one = plain_proposal(&multisig, key(1));
    let mut other = one.clone();
    approve_transaction(&mut one, &multisig, key(2)).unwrap();
    approve_transaction(&mut one, &multisig, key(3)).unwrap();
    approve_transaction(&mut other, &multisig, key(3)).unwrap();
    approve_transaction(&mut other, &multisig, key(2)).unwrap();
    assert_eq!(one, other);
    assert_eq!(one.signers, vec![true, true, true]);
}

#[test]
fn approve_refuses_a_stranger_and_changes_nothing() {
    let multisig = registry(vec![key(1), key(2)], 2);
    let mut transaction = plain_proposal(&multisig, key(1));
    let before = transaction.clone();
    assert_eq!(
        approve_transaction(&mut transaction, &multisig, key(9)),
        Err(MultisigError::InvalidOwner)
    );
    assert_eq!(transaction, before);
}

#[test]
fn approve_refuses_a_stale_proposal() {
    let mut multisig = registry(vec![key(1), key(2)], 2);
    let mut transaction = plain_proposal(&multisig, key(1));
    multisig.owner_set_seqno = 1;
    let before = transaction.clone();
    assert_eq!(
        approve_transaction(&mut transaction, &multisig, key(2)),
        Err(MultisigError::OwnerSetChanged)
    );
    assert_eq!(transaction, before);
    assert_eq!(
        approve_transaction(&mut transaction, &multisig, key(9)),
        Err(MultisigError::OwnerSetChanged)
    );
    assert_eq!(transaction, before);
}

#[test]
fn approve_after_execution_is_accepted() {
    let multisig = registry(vec![key(1), key(2)], 1);
    let mut transaction = plain_proposal(&multisig, key(1));
    let outcome = dispatch(&transaction, &multisig);
    complete_execution(&mut transaction, outcome).unwrap();
    assert_eq!(approve_transaction(&mut transaction, &multisig, key(2)), Ok(()));
    assert_eq!(transaction.signers, vec![true, true]);
    assert!(transaction.did_execute);
    assert_eq!(
        execute_transaction(&transaction, &multisig),
        Err(MultisigError::AlreadyExecuted)
    );
}

#[test]
fn count_approvals_counts_the_set_entries() {
    assert_eq!(count_approvals(&Vec::new()), 0);
    assert_eq!(count_approvals(&vec![false, false]), 0);
    assert_eq!(count_approvals(&vec![true, false, true, true]), 3);
    assert_eq!(count_approvals(&vec![true; 300]), 300);
}

#[test]
fn execute_asks_for_the_threshold() {
    let multisig = registry(vec![key(1), key(2), key(3)], 3);
    let mut transaction = plain_proposal(&multisig, key(1));
    assert_eq!(
        execute_transaction(&transaction, &multisig),
        Err(MultisigError::NotEnoughSigners)
    );
    approve_transaction(&mut transaction, &multisig, key(2)).unwrap();
    assert_eq!(
        execute_transaction(&transaction, &multisig),
        Err(MultisigError::NotEnoughSigners)
    );
    approve_transaction(&mut transaction, &multisig, key(3)).unwrap();
    assert!(execute_transaction(&transaction, &multisig).is_ok());
}

#[test]
fn execute_passes_with_more_than_the_threshold() {
    let multisig = registry(vec![key(1), key(2), key(3)], 1);
    let mut transaction = plain_proposal(&multisig, key(1));
    approve_transaction(&mut transaction, &multisig, key(2)).unwrap();
    assert!(execute_transaction(&transaction, &multisig).is_ok());
}

#[test]
fn execute_counts_approvals_beyond_a_byte() {
    let owners: Vec<Pubkey> = (0u16..300).map(numbered).collect();
    let multisig = registry(owners.clone(), 2);
    let mut transaction = plain_proposal(&multisig, owners[0]);
    for owner in owners.iter().take(256) {
        approve_transaction(&mut transaction, &multisig, *owner).unwrap();
    }
    assert_eq!(count_approvals(&transaction.signers), 256);
    assert!(execute_transaction(&transaction, &multisig).is_ok());
}

#[test]
fn execute_refuses_a_stale_proposal() {
    let mut multisig = registry(vec![key(1)], 1);
    let mut transaction = plain_proposal(&multisig, key(1));
    multisig.owner_set_seqno = 5;
    assert_eq!(
        execute_transaction(&transaction, &multisig),
        Err(MultisigError::OwnerSetChanged)
    );
    transaction.did_execute = true;
    assert_eq!(
        execute_transaction(&transaction, &multisig),
        Err(MultisigError::AlreadyExecuted)
    );
}

#[test]
fn execute_changes_nothing_by_itself() {
    let multisig = registry(vec![key(1)], 1);
    let transaction = plain_proposal(&multisig, key(1));
    let before = transaction.clone();
    assert!(execute_transaction(&transaction, &multisig).is_ok());
    assert_eq!(transaction, before);
    assert!(execute_transaction(&transaction, &multisig).is_ok());
}

#[test]
fn failed_dispatch_leaves_the_proposal_executable() {
    let multisig = registry(vec![key(1)], 1);
    let mut transaction = plain_proposal(&multisig, key(1));
    let before = transaction.clone();
    assert!(execute_transaction(&transaction, &multisig).is_ok());
    assert_eq!(
        complete_execution(&mut transaction, Err(ProgramError::InvalidArgument)),
        Err(ProgramError::InvalidArgument)
    );
    assert_eq!(transaction, before);
    assert!(!transaction.did_execute);
    let outcome = dispatch(&transaction, &multisig);
    assert_eq!(complete_execution(&mut transaction, outcome), Ok(()));
    assert!(transaction.did_execute);
}

#[test]
fn complete_execution_touches_the_flag_only() {
    let multisig = registry(vec![key(1), key(2)], 1);
    let mut transaction = plain_proposal(&multisig, key(2));
    let before = transaction.clone();
    assert_eq!(complete_execution::<u8>(&mut transaction, Ok(())), Ok(()));
    assert!(transaction.did_execute);
    assert_eq!(transaction.signers, before.signers);
    assert_eq!(transaction.owner_set_seqno, before.owner_set_seqno);
    assert_eq!(transaction.accounts, before.accounts);
    assert_eq!(transaction.data, before.data);
    assert_eq!(complete_execution(&mut transaction, Err(5u8)), Err(5u8));
    assert!(transaction.did_execute);
}

#[test]
fn account_meta_mirrors_the_stored_flags() {
    for (is_signer, is_writable) in [(false, false), (false, true), (true, false), (true, true)] {
        let account = TransactionAccount { pubkey: key(42), is_signer, is_writable };
        let meta = AccountMeta::from(&account);
        assert_eq!(meta.pubkey, key(42));
        assert_eq!(meta.is_signer, is_signer);
        assert_eq!(meta.is_writable, is_writable);
    }
}

#[test]
fn instruction_is_rebuilt_from_the_proposal() {
    let multisig = registry(vec![key(1)], 1);
    let accounts = vec![
        TransactionAccount { pubkey: key(10), is_signer: false, is_writable: false },
        TransactionAccount { pubkey: key(11), is_signer: false, is_writable: true },
        TransactionAccount { pubkey: key(12), is_signer: true, is_writable: false },
        TransactionAccount { pubkey: key(13), is_signer: true, is_writable: true },
    ];
    let transaction =
        propose_transaction(&multisig, key(100), key(1), key(77), accounts, vec![5, 6, 7]).unwrap();
    let instruction = build_instruction(&transaction);
    assert_eq!(instruction.program_id, key(77));
    assert_eq!(instruction.data, vec![5, 6, 7]);
    assert_eq!(
        instruction.accounts,
        vec![
            AccountMeta::new_readonly(key(10), false),
            AccountMeta::new(key(11), false),
            AccountMeta::new_readonly(key(12), true),
            AccountMeta::new(key(13), true),
        ]
    );
    assert_eq!(execute_transaction(&transaction, &multisig).unwrap(), instruction);
}

#[test]
fn instruction_of_an_empty_call() {
    let multisig = registry(vec![key(1)], 1);
    let transaction =
        propose_transaction(&multisig, key(100), key(1), key(77), Vec::new(), Vec::new()).unwrap();
    let instruction = build_instruction(&transaction);
    assert_eq!(instruction.program_id, key(77));
    assert!(instruction.accounts.is_empty());
    assert!(instruction.data.is_empty());
}

#[test]
fn clones_hold_the_same_values() {
    let multisig = registry(vec![key(1), key(2)], 2);
    assert_eq!(multisig.clone(), multisig);
    let accounts = vec![TransactionAccount { pubkey: key(10), is_signer: true, is_writable: true }];
    assert_eq!(accounts[0].clone(), accounts[0]);
    let transaction =
        propose_transaction(&multisig, key(100), key(2), key(77), accounts, vec![1]).unwrap();
    assert_eq!(transaction.clone(), transaction);
}
