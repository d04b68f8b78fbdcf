use vstd::prelude::*;

verus! {

/// Bytes of bookkeeping that the ledger charges for on top of an account's data.
pub const ACCOUNT_STORAGE_OVERHEAD: u64 = 128;

/// Size in bytes of an asset registry entry without extensions.
pub const MINT_ACCOUNT_LEN: u64 = 82;

/// Size in bytes of a holding account without extensions.
pub const HOLDING_ACCOUNT_LEN: u64 = 165;

/// A snapshot of the ledger's storage-rent schedule: the yearly price of a
/// byte, and the number of years of rent that an account must hold to
/// persist indefinitely.
#[derive(Clone, Copy, Debug, PartialEq, Eq, Structural)]
pub struct RentSchedule {
    pub lamports_per_byte_year: u64,
    pub exemption_years: u64,
}

impl RentSchedule {
    /// The balance that keeps an account of `size` bytes alive indefinitely:
    /// the years of exemption times the yearly price of its data and overhead.
    pub open spec fn exempt_balance(self, size: u64) -> int {
        (ACCOUNT_STORAGE_OVERHEAD + size) * self.lamports_per_byte_year * self.exemption_years
    }

    /// The schedule the ledger starts out with: 3480 lamports for a byte and
    /// a year, two years of exemption.
    pub fn standard() -> (s: RentSchedule)
        ensures
            s.lamports_per_byte_year == 3480,
            s.exemption_years == 2,
    {
        RentSchedule { lamports_per_byte_year: 3480, exemption_years: 2 }
    }

    /// The minimum balance for an account of `size` bytes under this
    /// schedule, or nothing where it does not fit in 64 bits. Reads nothing
    /// but its arguments.
    pub fn minimum_balance(&self, size: u64) -> (r: Option<u64>)
        ensures
            self.exempt_balance(size) <= u64::MAX ==> r == Some(self.exempt_balance(size) as u64),
            self.exempt_balance(size) > u64::MAX ==> r is None,
    {
        let price = self.lamports_per_byte_year;
        let years = self.exemption_years;
        if price == 0 || years == 0 {
            assert(self.exempt_balance(size) == 0) by (nonlinear_arith)
                requires
                    self.lamports_per_byte_year == 0 || self.exemption_years == 0,
                    self.exempt_balance(size) == (ACCOUNT_STORAGE_OVERHEAD + size)
                        * self.lamports_per_byte_year * self.exemption_years,
            ;
            return Some(0);
        }
        let ghost bytes_int: int = ACCOUNT_STORAGE_OVERHEAD + size;
        assert(bytes_int * price * years >= bytes_int * price && bytes_int * price >= bytes_int)
            by (nonlinear_arith)
            requires
                bytes_int >= 0,
                price >= 1,
                years >= 1,
        ;
        let bytes = match ACCOUNT_STORAGE_OVERHEAD.checked_add(size) {
            Some(b) => b,
            None => {
                return None;
            },
        };
        let yearly = match bytes.checked_mul(price) {
            Some(y) => y,
            None => {
                return None;
            },
        };
        yearly.checked_mul(years)
    }
}

/// The minimum balance is stable: two results that meet the contract of
/// `minimum_balance` for the same schedule and size are equal.
pub proof fn law_minimum_balance_stable(
    schedule: RentSchedule,
    size: u64,
    first: Option<u64>,
    second: Option<u64>,
)
    requires
        schedule.exempt_balance(size) <= u64::MAX ==> first == Some(
            schedule.exempt_balance(size) as u64,
        ),
        schedule.exempt_balance(size) > u64::MAX ==> first is None,
        schedule.exempt_balance(size) <= u64::MAX ==> second == Some(
            schedule.exempt_balance(size) as u64,
        ),
        schedule.exempt_balance(size) > u64::MAX ==> second is None,
    ensures
        first == second,
{
}

/// A larger account never needs a smaller balance.
pub proof fn law_minimum_balance_monotone(schedule: RentSchedule, small: u64, large: u64)
    requires
        small <= large,
    ensures
        schedule.exempt_balance(small) <= schedule.exempt_balance(large),
{
    assert((ACCOUNT_STORAGE_OVERHEAD + small) * schedule.lamports_per_byte_year
        * schedule.exemption_years <= (ACCOUNT_STORAGE_OVERHEAD + large)
        * schedule.lamports_per_byte_year * schedule.exemption_years) by (nonlinear_arith)
        requires
            small <= large,
            schedule.lamports_per_byte_year >= 0,
            schedule.exemption_years >= 0,
    ;
}

} // verus!
