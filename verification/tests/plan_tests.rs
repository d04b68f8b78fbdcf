use ledger_core::address::Address;
use ledger_core::derivation::associated_holding_address;
use ledger_core::instruction::Instruction;
use ledger_core::plan::{
    associated_transfer, holding_account_creation, mint_and_fund, mint_creation,
};
use ledger_core::programs::token_2022_program;
use solana_sdk::pubkey::Pubkey;

fn addr(tag: u8) -> Address {
    Address::new([tag; 32])
}

fn key(a: &Address) -> Pubkey {
    Pubkey::new_from_array(a.bytes)
}

fn same(ours: &Instruction, theirs: &solana_sdk::instruction::Instruction) -> bool {
    ours.program_id.bytes == theirs.program_id.to_bytes()
        && ours.data == theirs.data
        && ours.accounts.len() == theirs.accounts.len()
        && ours.accounts.iter().zip(theirs.accounts.iter()).all(|(a, b)| {
            a.address.bytes == b.pubkey.to_bytes()
                && a.is_signer == b.is_signer
                && a.is_writable == b.is_writable
        })
}

#[test]
fn mint_creation_is_create_then_initialize() {
    let payer = addr(1);
    let mint = addr(2);
    let plan = mint_creation(&payer, &mint, 1_461_600, 9);
    assert_eq!(plan.len(), 2);
    #[allow(deprecated)]
    let create = solana_sdk::system_instruction::create_account(
        &key(&payer),
        &key(&mint),
        1_461_600,
        82,
        &spl_token_2022::id(),
    );
    let initialize = spl_token_2022::instruction::initialize_mint(
        &spl_token_2022::id(),
        &key(&mint),
        &key(&payer),
        Some(&key(&payer)),
        9,
    )
    .unwrap();
    assert!(same(&plan[0], &create));
    assert!(same(&plan[1], &initialize));
}

#[test]
fn holding_account_creation_is_create_then_initialize() {
    let payer = addr(1);
    let account = addr(3);
    let mint = addr(2);
    let plan = holding_account_creation(&payer, &account, &mint, 2_039_280);
    assert_eq!(plan.len(), 2);
    #[allow(deprecated)]
    let create = solana_sdk::system_instruction::create_account(
        &key(&payer),
        &key(&account),
        2_039_280,
        165,
        &spl_token_2022::id(),
    );
    let initialize = spl_token_2022::instruction::initialize_account(
        &spl_token_2022::id(),
        &key(&account),
        &key(&mint),
        &key(&payer),
    )
    .unwrap();
    assert!(same(&plan[0], &create));
    assert!(same(&plan[1], &initialize));
}

#[test]
fn mint_and_fund_has_five_instructions_in_order() {
    let payer = addr(1);
    let recipient = addr(4);
    let mint = addr(2);
    let plan = mint_and_fund(&payer, &recipient, &mint, 1_461_600, 2, 100).unwrap();
    assert_eq!(plan.len(), 5);
    let head = mint_creation(&payer, &mint, 1_461_600, 2);
    assert_eq!(plan[0], head[0]);
    assert_eq!(plan[1], head[1]);
    let payer_account = spl_associated_token_account::get_associated_token_address_with_program_id(
        &key(&payer),
        &key(&mint),
        &spl_token_2022::id(),
    );
    let for_payer = spl_associated_token_account::instruction::create_associated_token_account(
        &key(&payer),
        &key(&payer),
        &key(&mint),
        &spl_token_2022::id(),
    );
    let for_recipient = spl_associated_token_account::instruction::create_associated_token_account(
        &key(&payer),
        &key(&recipient),
        &key(&mint),
        &spl_token_2022::id(),
    );
    let issue = spl_token_2022::instruction::mint_to(
        &spl_token_2022::id(),
        &key(&mint),
        &payer_account,
        &key(&payer),
        &[&key(&payer)],
        100,
    )
    .unwrap();
    assert!(same(&plan[2], &for_payer));
    assert!(same(&plan[3], &for_recipient));
    assert!(same(&plan[4], &issue));
}

#[test]
fn associated_transfer_moves_between_associated_accounts() {
    let payer = addr(1);
    let recipient = addr(4);
    let mint = addr(2);
    let plan = associated_transfer(&payer, &recipient, &mint, 50, 2).unwrap();
    assert_eq!(plan.len(), 1);
    let program = token_2022_program();
    let source = associated_holding_address(&payer, &mint, &program).unwrap().address;
    let destination = associated_holding_address(&recipient, &mint, &program).unwrap().address;
    let theirs = spl_token_2022::instruction::transfer_checked(
        &spl_token_2022::id(),
        &key(&source),
        &key(&mint),
        &key(&destination),
        &key(&payer),
        &[&key(&payer)],
        50,
        2,
    )
    .unwrap();
    assert!(same(&plan[0], &theirs));
    assert_eq!(plan[0].data, vec![12, 50, 0, 0, 0, 0, 0, 0, 0, 2]);
}
