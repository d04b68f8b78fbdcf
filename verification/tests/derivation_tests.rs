use ledger_core::address::Address;
use ledger_core::derivation::{
    after_candidate, associated_holding_address, check_seeds, kind_of, AddressKind, DeriveError,
    DerivedAddress, Search,
};
use ledger_core::transaction::SigningKey;
use ledger_core::programs::{associated_account_program, token_2022_program, token_program};
use solana_sdk::pubkey::Pubkey;

fn addr(tag: u8) -> Address {
    Address::new([tag; 32])
}

#[test]
fn derive_is_repeatable() {
    let seeds: Vec<Vec<u8>> = vec![b"vault".to_vec(), vec![1, 2, 3]];
    let program = addr(42);
    let first = ledger_core::derivation::derive(&seeds, &program);
    let second = ledger_core::derivation::derive(&seeds, &program);
    assert!(first.is_ok());
    assert_eq!(first, second);
}

#[test]
fn derive_agrees_with_the_ledger_client() {
    for tag in 0u8..20 {
        let seeds: Vec<Vec<u8>> = vec![b"seed".to_vec(), vec![tag]];
        let program = addr(tag.wrapping_mul(7));
        let parts: Vec<&[u8]> = seeds.iter().map(|s| s.as_slice()).collect();
        let (expected, bump) =
            Pubkey::find_program_address(&parts, &Pubkey::new_from_array(program.bytes));
        assert_eq!(
            ledger_core::derivation::derive(&seeds, &program),
            Ok(DerivedAddress { address: Address::new(expected.to_bytes()), bump })
        );
    }
}

#[test]
fn derived_address_is_off_the_signing_curve() {
    let seeds: Vec<Vec<u8>> = vec![b"escrow".to_vec()];
    let d = ledger_core::derivation::derive(&seeds, &addr(9)).unwrap();
    assert!(!Pubkey::new_from_array(d.address.bytes).is_on_curve());
    assert!(d.bump >= 1);
}

#[test]
fn bump_alone_reproduces_the_address() {
    let seeds: Vec<Vec<u8>> = vec![b"escrow".to_vec(), vec![7; 32]];
    let program = addr(9);
    let d = ledger_core::derivation::derive(&seeds, &program).unwrap();
    let bump = [d.bump];
    let parts: Vec<&[u8]> = vec![b"escrow", &[7; 32], &bump];
    let again =
        Pubkey::create_program_address(&parts, &Pubkey::new_from_array(program.bytes)).unwrap();
    assert_eq!(again.to_bytes(), d.address.bytes);
}

#[test]
fn different_programs_give_different_addresses() {
    let seeds: Vec<Vec<u8>> = vec![b"same".to_vec()];
    let a = ledger_core::derivation::derive(&seeds, &addr(1)).unwrap();
    let b = ledger_core::derivation::derive(&seeds, &addr(2)).unwrap();
    assert_ne!(a.address, b.address);
}

#[test]
fn empty_seed_list_is_derivable() {
    let seeds: Vec<Vec<u8>> = vec![];
    let program = addr(3);
    let (expected, bump) =
        Pubkey::find_program_address(&[], &Pubkey::new_from_array(program.bytes));
    assert_eq!(
        ledger_core::derivation::derive(&seeds, &program),
        Ok(DerivedAddress { address: Address::new(expected.to_bytes()), bump })
    );
}

#[test]
fn too_many_seeds_are_refused() {
    let fifteen: Vec<Vec<u8>> = (0u8..15).map(|i| vec![i]).collect();
    assert!(check_seeds(&fifteen));
    assert!(ledger_core::derivation::derive(&fifteen, &addr(1)).is_ok());
    let sixteen: Vec<Vec<u8>> = (0u8..16).map(|i| vec![i]).collect();
    assert!(!check_seeds(&sixteen));
    assert_eq!(ledger_core::derivation::derive(&sixteen, &addr(1)), Err(DeriveError::SeedsOutOfRange));
}

#[test]
fn too_long_a_seed_is_refused() {
    let fits: Vec<Vec<u8>> = vec![vec![0; 32]];
    assert!(check_seeds(&fits));
    assert!(ledger_core::derivation::derive(&fits, &addr(1)).is_ok());
    let too_long: Vec<Vec<u8>> = vec![vec![1], vec![0; 33]];
    assert!(!check_seeds(&too_long));
    assert_eq!(ledger_core::derivation::derive(&too_long, &addr(1)), Err(DeriveError::SeedsOutOfRange));
}

#[test]
fn associated_address_is_the_same_for_independent_callers() {
    let holder = addr(21);
    let mint = addr(22);
    let one = associated_holding_address(&holder, &mint, &token_2022_program());
    let other = associated_holding_address(&holder, &mint, &token_2022_program());
    assert!(one.is_ok());
    assert_eq!(one, other);
    let by_hand = ledger_core::derivation::derive(
        &vec![holder.to_vec(), token_2022_program().to_vec(), mint.to_vec()],
        &associated_account_program(),
    );
    assert_eq!(one, by_hand);
}

#[test]
fn associated_address_agrees_with_the_client_library() {
    for tag in 1u8..10 {
        let holder = addr(tag);
        let mint = addr(tag + 100);
        for program in [token_2022_program(), token_program()].iter() {
            let expected =
                spl_associated_token_account::get_associated_token_address_with_program_id(
                    &Pubkey::new_from_array(holder.bytes),
                    &Pubkey::new_from_array(mint.bytes),
                    &Pubkey::new_from_array(program.bytes),
                );
            let ours = associated_holding_address(&holder, &mint, program).unwrap();
            assert_eq!(ours.address.bytes, expected.to_bytes());
        }
    }
}

#[test]
fn associated_address_depends_on_holder_and_asset() {
    let program = token_2022_program();
    let a = associated_holding_address(&addr(1), &addr(2), &program).unwrap();
    let b = associated_holding_address(&addr(2), &addr(1), &program).unwrap();
    let c = associated_holding_address(&addr(1), &addr(3), &program).unwrap();
    assert_ne!(a.address, b.address);
    assert_ne!(a.address, c.address);
}

#[test]
fn derived_addresses_are_unsignable_and_key_addresses_signing_capable() {
    let seeds: Vec<Vec<u8>> = vec![b"vault".to_vec()];
    for tag in 0u8..10 {
        let d = ledger_core::derivation::derive(&seeds, &addr(tag)).unwrap();
        assert_eq!(kind_of(&d.address), AddressKind::Unsignable);
        let key = SigningKey::from_secret([tag; 32]);
        assert_eq!(kind_of(&key.address()), AddressKind::SigningCapable);
    }
    let associated = associated_holding_address(&addr(1), &addr(2), &token_2022_program());
    assert_eq!(kind_of(&associated.unwrap().address), AddressKind::Unsignable);
}

#[test]
fn skipped_bumps_land_on_the_signing_curve() {
    let seeds: Vec<Vec<u8>> = vec![b"probe".to_vec()];
    let mut seen_skip = false;
    for tag in 0u8..40 {
        let program = addr(tag);
        let d = ledger_core::derivation::derive(&seeds, &program).unwrap();
        let mut bump = 255u8;
        while bump > d.bump {
            let last = [bump];
            let parts: Vec<&[u8]> = vec![b"probe", &last];
            let refused =
                Pubkey::create_program_address(&parts, &Pubkey::new_from_array(program.bytes));
            assert!(refused.is_err());
            seen_skip = true;
            bump -= 1;
        }
    }
    assert!(seen_skip);
}

#[test]
fn search_takes_the_first_candidate_that_stands() {
    let found = after_candidate(254, Some(addr(3)));
    assert_eq!(found, Search::Found(DerivedAddress { address: addr(3), bump: 254 }));
    assert_eq!(after_candidate(255, None), Search::Continue(254));
    assert_eq!(after_candidate(2, None), Search::Continue(1));
    assert_eq!(after_candidate(1, None), Search::Exhausted);
    assert_eq!(after_candidate(0, None), Search::Exhausted);
    assert_eq!(
        after_candidate(1, Some(addr(4))),
        Search::Found(DerivedAddress { address: addr(4), bump: 1 })
    );
}

#[test]
fn curve_test_decides_the_kind() {
    assert_eq!(AddressKind::from_curve_test(true), AddressKind::SigningCapable);
    assert_eq!(AddressKind::from_curve_test(false), AddressKind::Unsignable);
}
