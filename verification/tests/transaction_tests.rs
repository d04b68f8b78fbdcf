use ledger_core::address::Address;
use ledger_core::builder::{build, Operation};
use ledger_core::error::LedgerError;
use ledger_core::instruction::{AccountMeta, Instruction};
use ledger_core::programs::{system_program, token_2022_program};
use ledger_core::signers::{
    position_of, push_unique, referenced_addresses, required_signer_addresses,
};
use ledger_core::transaction::{
    assemble, check_lists_fit, collect_signatures, find_key, FreshnessToken, SigningKey,
};
use solana_sdk::signer::keypair::Keypair;
use solana_sdk::signer::Signer;
use solana_sdk::transaction::Transaction;

fn secret(tag: u8) -> [u8; 32] {
    let mut s = [tag; 32];
    s[0] = tag.wrapping_add(1);
    s[31] = 7;
    s
}

fn token() -> FreshnessToken {
    FreshnessToken { hash: [9; 32], last_valid_height: 1_000 }
}

fn lower(ix: &Instruction) -> solana_sdk::instruction::Instruction {
    solana_sdk::instruction::Instruction {
        program_id: ix.program_id.bytes.into(),
        accounts: ix
            .accounts
            .iter()
            .map(|m| solana_sdk::instruction::AccountMeta {
                pubkey: m.address.bytes.into(),
                is_signer: m.is_signer,
                is_writable: m.is_writable,
            })
            .collect(),
        data: ix.data.clone(),
    }
}

fn mint_instructions(payer: &SigningKey, mint: &SigningKey) -> Vec<Instruction> {
    vec![
        build(&Operation::CreateAccount {
            payer: payer.address(),
            new_account: mint.address(),
            lamports: 1_461_600,
            space: 82,
            owner: token_2022_program(),
        })
        .unwrap(),
        build(&Operation::InitializeMint {
            token_program: token_2022_program(),
            mint: mint.address(),
            mint_authority: payer.address(),
            freeze_authority: Some(payer.address()),
            decimals: 9,
        })
        .unwrap(),
    ]
}

#[test]
fn signing_key_address_is_the_public_key() {
    for tag in 0u8..5 {
        let key = SigningKey::from_secret(secret(tag));
        let theirs = Keypair::new_from_array(secret(tag));
        assert_eq!(key.address().bytes, theirs.pubkey().to_bytes());
        assert_ne!(key.address().bytes, secret(tag));
    }
}

#[test]
fn signing_is_the_ledger_signature_of_the_message() {
    let key = SigningKey::from_secret(secret(1));
    let theirs = Keypair::new_from_array(secret(1));
    let message: Vec<u8> = vec![1, 2, 3, 4, 5];
    let ours = key.sign(&message);
    let expected: [u8; 64] = theirs.sign_message(&message).into();
    assert_eq!(ours.bytes, expected);
    let other: Vec<u8> = vec![1, 2, 3, 4, 6];
    assert_ne!(key.sign(&other).bytes, expected);
}

#[test]
fn assembly_with_all_signers_succeeds() {
    let payer = SigningKey::from_secret(secret(1));
    let mint = SigningKey::from_secret(secret(2));
    let instructions = mint_instructions(&payer, &mint);
    let keys = vec![SigningKey::from_secret(secret(1)), SigningKey::from_secret(secret(2))];
    let tx = assemble(&instructions, &payer.address(), &token(), &keys).unwrap();
    assert_eq!(tx.signatures.len(), 2);
    assert_eq!(tx.signer_keys.len(), 2);
    assert_eq!(tx.signer_keys[0], payer.address());
    assert!(tx.signer_keys.contains(&mint.address()));
    assert_eq!(tx.token, token());
}

#[test]
fn assembly_matches_the_ledger_client() {
    let payer = SigningKey::from_secret(secret(1));
    let mint = SigningKey::from_secret(secret(2));
    let instructions = mint_instructions(&payer, &mint);
    let keys = vec![SigningKey::from_secret(secret(2)), SigningKey::from_secret(secret(1))];
    let tx = assemble(&instructions, &payer.address(), &token(), &keys).unwrap();

    let lowered: Vec<solana_sdk::instruction::Instruction> =
        instructions.iter().map(lower).collect();
    let their_payer = Keypair::new_from_array(secret(1));
    let their_mint = Keypair::new_from_array(secret(2));
    let theirs = Transaction::new_signed_with_payer(
        &lowered,
        Some(&their_payer.pubkey()),
        &[&their_payer, &their_mint],
        solana_sdk::hash::Hash::new_from_array(token().hash),
    );
    assert_eq!(tx.message, theirs.message_data());
    assert_eq!(tx.signatures.len(), theirs.signatures.len());
    for (ours, expected) in tx.signatures.iter().zip(theirs.signatures.iter()) {
        let expected: [u8; 64] = (*expected).into();
        assert_eq!(ours.bytes, expected);
    }
    let their_keys: Vec<[u8; 32]> =
        theirs.message.signer_keys().iter().map(|k| k.to_bytes()).collect();
    let our_keys: Vec<[u8; 32]> = tx.signer_keys.iter().map(|k| k.bytes).collect();
    assert_eq!(our_keys, their_keys);
}

#[test]
fn every_signature_verifies_against_its_signer() {
    let payer = SigningKey::from_secret(secret(3));
    let mint = SigningKey::from_secret(secret(4));
    let instructions = mint_instructions(&payer, &mint);
    let keys = vec![SigningKey::from_secret(secret(3)), SigningKey::from_secret(secret(4))];
    let tx = assemble(&instructions, &payer.address(), &token(), &keys).unwrap();
    for (signer, signature) in tx.signer_keys.iter().zip(tx.signatures.iter()) {
        let theirs = solana_sdk::signature::Signature::from(signature.bytes);
        assert!(theirs.verify(&signer.bytes, &tx.message));
    }
}

#[test]
fn missing_signer_fails_assembly() {
    let payer = SigningKey::from_secret(secret(1));
    let mint = SigningKey::from_secret(secret(2));
    let instructions = mint_instructions(&payer, &mint);
    let only_payer = vec![SigningKey::from_secret(secret(1))];
    assert_eq!(
        assemble(&instructions, &payer.address(), &token(), &only_payer),
        Err(LedgerError::MissingSigner)
    );
    let only_mint = vec![SigningKey::from_secret(secret(2))];
    assert_eq!(
        assemble(&instructions, &payer.address(), &token(), &only_mint),
        Err(LedgerError::MissingSigner)
    );
    let nobody: Vec<SigningKey> = vec![];
    assert_eq!(
        assemble(&instructions, &payer.address(), &token(), &nobody),
        Err(LedgerError::MissingSigner)
    );
}

#[test]
fn fee_payer_must_sign_even_when_no_instruction_names_it() {
    let payer = SigningKey::from_secret(secret(1));
    let other = SigningKey::from_secret(secret(5));
    let instructions = vec![build(&Operation::NativeTransfer {
        from: other.address(),
        to: Address::new([8; 32]),
        lamports: 5,
    })
    .unwrap()];
    let keys = vec![SigningKey::from_secret(secret(5))];
    assert_eq!(
        assemble(&instructions, &payer.address(), &token(), &keys),
        Err(LedgerError::MissingSigner)
    );
    let keys = vec![SigningKey::from_secret(secret(5)), SigningKey::from_secret(secret(1))];
    let tx = assemble(&instructions, &payer.address(), &token(), &keys).unwrap();
    assert_eq!(tx.signer_keys[0], payer.address());
    assert_eq!(tx.signatures.len(), 2);
}

#[test]
fn surplus_keys_are_left_aside() {
    let payer = SigningKey::from_secret(secret(1));
    let mint = SigningKey::from_secret(secret(2));
    let instructions = mint_instructions(&payer, &mint);
    let exact = vec![SigningKey::from_secret(secret(1)), SigningKey::from_secret(secret(2))];
    let surplus = vec![
        SigningKey::from_secret(secret(6)),
        SigningKey::from_secret(secret(2)),
        SigningKey::from_secret(secret(1)),
        SigningKey::from_secret(secret(1)),
    ];
    let a = assemble(&instructions, &payer.address(), &token(), &exact).unwrap();
    let b = assemble(&instructions, &payer.address(), &token(), &surplus).unwrap();
    assert_eq!(a, b);
}

#[test]
fn signatures_are_deduplicated_per_signer() {
    let payer = SigningKey::from_secret(secret(1));
    let transfer = build(&Operation::NativeTransfer {
        from: payer.address(),
        to: Address::new([8; 32]),
        lamports: 5,
    })
    .unwrap();
    let instructions = vec![transfer.duplicate(), transfer.duplicate(), transfer];
    let keys = vec![SigningKey::from_secret(secret(1))];
    let tx = assemble(&instructions, &payer.address(), &token(), &keys).unwrap();
    assert_eq!(tx.signatures.len(), 1);
    assert_eq!(tx.signer_keys, vec![payer.address()]);
}

#[test]
fn another_token_gives_another_message() {
    let payer = SigningKey::from_secret(secret(1));
    let mint = SigningKey::from_secret(secret(2));
    let instructions = mint_instructions(&payer, &mint);
    let keys = vec![SigningKey::from_secret(secret(1)), SigningKey::from_secret(secret(2))];
    let first = assemble(&instructions, &payer.address(), &token(), &keys).unwrap();
    let fresh = FreshnessToken { hash: [10; 32], last_valid_height: 2_000 };
    let second = assemble(&instructions, &payer.address(), &fresh, &keys).unwrap();
    assert_ne!(first.message, second.message);
    assert_ne!(first.signatures, second.signatures);
    assert_eq!(first.signer_keys, second.signer_keys);
}

#[test]
fn empty_transaction_is_refused() {
    let payer = SigningKey::from_secret(secret(1));
    let keys = vec![SigningKey::from_secret(secret(1))];
    let none: Vec<Instruction> = vec![];
    assert_eq!(assemble(&none, &payer.address(), &token(), &keys), Err(LedgerError::Encoding));
}

fn wide_instruction(program: Address, count: u16, signers: bool) -> Instruction {
    let accounts: Vec<AccountMeta> = (0..count)
        .map(|i| {
            let mut bytes = [0u8; 32];
            bytes[0] = (i % 256) as u8;
            bytes[1] = (i / 256) as u8;
            bytes[2] = 1;
            AccountMeta::new(Address::new(bytes), signers, false)
        })
        .collect();
    Instruction::new(program, accounts, vec![])
}

#[test]
fn more_addresses_than_a_byte_can_index_are_refused() {
    let payer = SigningKey::from_secret(secret(1));
    let keys = vec![SigningKey::from_secret(secret(1))];
    let fits = vec![wide_instruction(system_program(), 254, false)];
    assert_eq!(referenced_addresses(&fits, &payer.address()).len(), 256);
    assert!(assemble(&fits, &payer.address(), &token(), &keys).is_ok());
    let too_many = vec![wide_instruction(system_program(), 255, false)];
    assert_eq!(referenced_addresses(&too_many, &payer.address()).len(), 257);
    assert_eq!(
        assemble(&too_many, &payer.address(), &token(), &keys),
        Err(LedgerError::Encoding)
    );
}

#[test]
fn more_signers_than_a_byte_can_count_are_refused() {
    let payer = SigningKey::from_secret(secret(1));
    let keys = vec![SigningKey::from_secret(secret(1))];
    let too_many = vec![wide_instruction(payer.address(), 255, true)];
    assert_eq!(referenced_addresses(&too_many, &payer.address()).len(), 256);
    assert_eq!(required_signer_addresses(&too_many, &payer.address()).len(), 256);
    assert_eq!(
        assemble(&too_many, &payer.address(), &token(), &keys),
        Err(LedgerError::Encoding)
    );
    let fits = vec![wide_instruction(payer.address(), 254, true)];
    assert_eq!(required_signer_addresses(&fits, &payer.address()).len(), 255);
    assert_eq!(
        assemble(&fits, &payer.address(), &token(), &keys),
        Err(LedgerError::MissingSigner)
    );
}

#[test]
fn referenced_and_required_addresses_are_listed_once() {
    let a = Address::new([1; 32]);
    let b = Address::new([2; 32]);
    let c = Address::new([3; 32]);
    let program = Address::new([4; 32]);
    let payer = Address::new([5; 32]);
    let instructions = vec![
        Instruction::new(
            program,
            vec![
                AccountMeta::new(a, true, true),
                AccountMeta::new(b, false, true),
                AccountMeta::new(a, false, false),
            ],
            vec![1],
        ),
        Instruction::new(
            program,
            vec![AccountMeta::new(b, true, false), AccountMeta::new(c, false, false)],
            vec![2],
        ),
    ];
    assert_eq!(referenced_addresses(&instructions, &payer), vec![payer, program, a, b, c]);
    assert_eq!(required_signer_addresses(&instructions, &payer), vec![payer, a, b]);
    assert_eq!(required_signer_addresses(&instructions, &a), vec![a, b]);
}

#[test]
fn position_and_unique_push_work_on_lists() {
    let a = Address::new([1; 32]);
    let b = Address::new([2; 32]);
    let mut list: Vec<Address> = vec![];
    assert_eq!(position_of(&list, &a), None);
    push_unique(&mut list, a);
    push_unique(&mut list, b);
    push_unique(&mut list, a);
    assert_eq!(list, vec![a, b]);
    assert_eq!(position_of(&list, &b), Some(1));
    assert_eq!(position_of(&list, &a), Some(0));
}

#[test]
fn find_key_returns_the_first_match() {
    let keys = vec![
        SigningKey::from_secret(secret(1)),
        SigningKey::from_secret(secret(2)),
        SigningKey::from_secret(secret(1)),
    ];
    let first = SigningKey::from_secret(secret(1)).address();
    let second = SigningKey::from_secret(secret(2)).address();
    let absent = SigningKey::from_secret(secret(3)).address();
    assert_eq!(find_key(&keys, &first), Some(0));
    assert_eq!(find_key(&keys, &second), Some(1));
    assert_eq!(find_key(&keys, &absent), None);
}

#[test]
fn payload_longer_than_sixteen_bits_is_refused() {
    let payer = SigningKey::from_secret(secret(1));
    let keys = vec![SigningKey::from_secret(secret(1))];
    let fits = vec![Instruction::new(system_program(), vec![], vec![0; 65_535])];
    let tx = assemble(&fits, &payer.address(), &token(), &keys).unwrap();
    let lowered: Vec<solana_sdk::instruction::Instruction> = fits.iter().map(lower).collect();
    let theirs = solana_sdk::message::Message::new_with_blockhash(
        &lowered,
        Some(&payer.address().bytes.into()),
        &solana_sdk::hash::Hash::new_from_array(token().hash),
    );
    assert_eq!(tx.message, theirs.serialize());
    let too_long = vec![Instruction::new(system_program(), vec![], vec![0; 65_536])];
    assert_eq!(
        assemble(&too_long, &payer.address(), &token(), &keys),
        Err(LedgerError::Encoding)
    );
}

#[test]
fn account_list_longer_than_sixteen_bits_is_refused() {
    let payer = SigningKey::from_secret(secret(1));
    let keys = vec![SigningKey::from_secret(secret(1))];
    let entry = AccountMeta::new(payer.address(), false, false);
    let fits = vec![Instruction::new(system_program(), vec![entry; 65_535], vec![])];
    let tx = assemble(&fits, &payer.address(), &token(), &keys).unwrap();
    assert_eq!(tx.signatures.len(), 1);
    let too_long = vec![Instruction::new(system_program(), vec![entry; 65_536], vec![])];
    assert_eq!(
        assemble(&too_long, &payer.address(), &token(), &keys),
        Err(LedgerError::Encoding)
    );
}

#[test]
fn signatures_are_collected_in_signer_order() {
    let keys = vec![
        SigningKey::from_secret(secret(1)),
        SigningKey::from_secret(secret(2)),
        SigningKey::from_secret(secret(3)),
    ];
    let order = vec![keys[2].address(), keys[0].address()];
    let message: Vec<u8> = vec![5, 4, 3, 2, 1];
    let signatures = collect_signatures(&order, &message, &keys).unwrap();
    assert_eq!(signatures, vec![keys[2].sign(&message), keys[0].sign(&message)]);
    let nobody: Vec<Address> = vec![];
    assert_eq!(collect_signatures(&nobody, &message, &keys), Ok(vec![]));
}

#[test]
fn collecting_signatures_without_a_key_reports_the_missing_signer() {
    let keys = vec![SigningKey::from_secret(secret(1))];
    let order = vec![keys[0].address(), SigningKey::from_secret(secret(2)).address()];
    let message: Vec<u8> = vec![1];
    assert_eq!(collect_signatures(&order, &message, &keys), Err(LedgerError::MissingSigner));
    let none: Vec<SigningKey> = vec![];
    let order = vec![Address::new([1; 32])];
    assert_eq!(collect_signatures(&order, &message, &none), Err(LedgerError::MissingSigner));
}

#[test]
fn list_lengths_are_checked_per_instruction() {
    let ok = vec![Instruction::new(system_program(), vec![], vec![0; 10])];
    assert!(check_lists_fit(&ok));
    let none: Vec<Instruction> = vec![];
    assert!(check_lists_fit(&none));
    let long = vec![
        Instruction::new(system_program(), vec![], vec![]),
        Instruction::new(system_program(), vec![], vec![0; 65_536]),
    ];
    assert!(!check_lists_fit(&long));
}

#[test]
fn message_signers_are_exactly_the_required_signers() {
    let payer = SigningKey::from_secret(secret(1));
    let writer = SigningKey::from_secret(secret(2));
    let reader = SigningKey::from_secret(secret(3));
    let program = SigningKey::from_secret(secret(4));
    let bystander = Address::new([77; 32]);
    let instructions = vec![
        Instruction::new(
            program.address(),
            vec![
                AccountMeta::new(reader.address(), true, false),
                AccountMeta::new(bystander, false, true),
                AccountMeta::new(writer.address(), false, false),
            ],
            vec![1],
        ),
        Instruction::new(
            bystander,
            vec![
                AccountMeta::new(writer.address(), true, true),
                AccountMeta::new(program.address(), true, false),
                AccountMeta::new(reader.address(), false, true),
            ],
            vec![2],
        ),
    ];
    let keys = vec![
        SigningKey::from_secret(secret(4)),
        SigningKey::from_secret(secret(3)),
        SigningKey::from_secret(secret(2)),
        SigningKey::from_secret(secret(1)),
    ];
    let tx = assemble(&instructions, &payer.address(), &token(), &keys).unwrap();
    let needed = required_signer_addresses(&instructions, &payer.address());
    assert_eq!(
        needed,
        vec![payer.address(), reader.address(), writer.address(), program.address()]
    );
    assert_eq!(tx.signer_keys.len(), needed.len());
    assert_eq!(tx.signer_keys[0], payer.address());
    for a in needed.iter() {
        assert_eq!(tx.signer_keys.iter().filter(|k| *k == a).count(), 1);
    }
    assert!(!tx.signer_keys.contains(&bystander));
    for (signer, signature) in tx.signer_keys.iter().zip(tx.signatures.iter()) {
        let theirs = solana_sdk::signature::Signature::from(signature.bytes);
        assert!(theirs.verify(&signer.bytes, &tx.message));
    }
}
