use ledger_core::rent::{
    RentSchedule, ACCOUNT_STORAGE_OVERHEAD, HOLDING_ACCOUNT_LEN, MINT_ACCOUNT_LEN,
};
use solana_sdk::program_pack::Pack;

#[test]
fn holding_account_minimum_balance_is_stable() {
    let schedule = RentSchedule::standard();
    let first = schedule.minimum_balance(165);
    for _ in 0..10 {
        assert_eq!(schedule.minimum_balance(165), first);
    }
    assert_eq!(first, Some(2_039_280));
    assert_eq!(schedule, RentSchedule::standard());
}

#[test]
fn mint_minimum_balance_under_the_standard_schedule() {
    assert_eq!(RentSchedule::standard().minimum_balance(MINT_ACCOUNT_LEN), Some(1_461_600));
    assert_eq!(RentSchedule::standard().minimum_balance(0), Some(890_880));
}

#[test]
fn minimum_balance_follows_the_formula() {
    let schedule = RentSchedule { lamports_per_byte_year: 10, exemption_years: 3 };
    assert_eq!(schedule.minimum_balance(72), Some((128 + 72) * 10 * 3));
    assert_eq!(ACCOUNT_STORAGE_OVERHEAD, 128);
}

#[test]
fn minimum_balance_agrees_with_the_ledger_client() {
    let theirs = solana_sdk::rent::Rent::default();
    for size in [0usize, 1, 82, 165, 355, 10_240, 10 * 1024 * 1024] {
        assert_eq!(
            RentSchedule::standard().minimum_balance(size as u64),
            Some(theirs.minimum_balance(size))
        );
    }
    assert_eq!(RentSchedule::standard().lamports_per_byte_year, theirs.lamports_per_byte_year);
}

#[test]
fn free_storage_needs_no_balance() {
    let free = RentSchedule { lamports_per_byte_year: 0, exemption_years: 2 };
    assert_eq!(free.minimum_balance(u64::MAX), Some(0));
    let no_years = RentSchedule { lamports_per_byte_year: 3480, exemption_years: 0 };
    assert_eq!(no_years.minimum_balance(u64::MAX), Some(0));
}

#[test]
fn balance_that_does_not_fit_is_reported() {
    let schedule = RentSchedule::standard();
    assert_eq!(schedule.minimum_balance(u64::MAX), None);
    assert_eq!(schedule.minimum_balance(u64::MAX - 127), None);
    assert_eq!(schedule.minimum_balance(u64::MAX / 3480), None);
    let edge = RentSchedule { lamports_per_byte_year: 1, exemption_years: 1 };
    assert_eq!(edge.minimum_balance(u64::MAX - 128), Some(u64::MAX));
    assert_eq!(edge.minimum_balance(u64::MAX - 127), None);
    let huge = RentSchedule { lamports_per_byte_year: u64::MAX, exemption_years: u64::MAX };
    assert_eq!(huge.minimum_balance(0), None);
}

#[test]
fn account_sizes_match_the_token_program() {
    assert_eq!(MINT_ACCOUNT_LEN as usize, spl_token_2022::state::Mint::LEN);
    assert_eq!(HOLDING_ACCOUNT_LEN as usize, spl_token_2022::state::Account::LEN);
}
