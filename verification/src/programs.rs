use crate::address::Address;
use vstd::prelude::*;

verus! {

/// Address of the system program, which creates accounts and moves native balance.
pub const SYSTEM_PROGRAM: [u8; 32] = [
    0, 0, 0, 0, 0, 0, 0, 0, 0, 0, 0, 0, 0, 0, 0, 0, 0, 0, 0, 0, 0, 0, 0, 0, 0, 0, 0, 0, 0, 0, 0, 0,
];

/// Address of the first token program.
pub const TOKEN_PROGRAM: [u8; 32] = [
    6, 221, 246, 225, 215, 101, 161, 147, 217, 203, 225, 70, 206, 235, 121, 172, 28, 180, 133, 237,
    95, 91, 55, 145, 58, 140, 245, 133, 126, 255, 0, 169,
];

/// Address of the extensible token program.
pub const TOKEN_2022_PROGRAM: [u8; 32] = [
    6, 221, 246, 225, 238, 117, 143, 222, 24, 66, 93, 188, 228, 108, 205, 218, 182, 26, 252, 77,
    131, 185, 13, 39, 254, 189, 249, 40, 216, 161, 139, 252,
];

/// Address of the program that owns associated holding accounts.
pub const ASSOCIATED_ACCOUNT_PROGRAM: [u8; 32] = [
    140, 151, 37, 143, 78, 36, 137, 241, 187, 61, 16, 41, 20, 142, 13, 131, 11, 90, 19, 153, 218,
    255, 16, 132, 4, 142, 123, 216, 219, 233, 248, 89,
];

/// Address under which the ledger publishes its rent schedule.
pub const RENT_SYSVAR: [u8; 32] = [
    6, 167, 213, 23, 25, 44, 92, 81, 33, 140, 201, 76, 61, 74, 241, 127, 88, 218, 238, 8, 155, 161,
    253, 68, 227, 219, 217, 138, 0, 0, 0, 0,
];

/// The address with the given bytes.
pub open spec fn address_of(bytes: [u8; 32]) -> Address {
    Address { bytes }
}

/// The system program's address.
pub fn system_program() -> (a: Address)
    ensures
        a == address_of(SYSTEM_PROGRAM),
{
    Address::new(SYSTEM_PROGRAM)
}

/// The first token program's address.
pub fn token_program() -> (a: Address)
    ensures
        a == address_of(TOKEN_PROGRAM),
{
    Address::new(TOKEN_PROGRAM)
}

/// The extensible token program's address.
pub fn token_2022_program() -> (a: Address)
    ensures
        a == address_of(TOKEN_2022_PROGRAM),
{
    Address::new(TOKEN_2022_PROGRAM)
}

/// The associated-account program's address.
pub fn associated_account_program() -> (a: Address)
    ensures
        a == address_of(ASSOCIATED_ACCOUNT_PROGRAM),
{
    Address::new(ASSOCIATED_ACCOUNT_PROGRAM)
}

/// The rent sysvar's address.
pub fn rent_sysvar() -> (a: Address)
    ensures
        a == address_of(RENT_SYSVAR),
{
    Address::new(RENT_SYSVAR)
}

/// Whether `a` names one of the two token programs.
pub open spec fn spec_is_token_program(a: Address) -> bool {
    a == address_of(TOKEN_PROGRAM) || a == address_of(TOKEN_2022_PROGRAM)
}

#[verifier::when_used_as_spec(spec_is_token_program)]
pub fn is_token_program(a: Address) -> (r: bool)
    ensures
        r == spec_is_token_program(a),
{
    let t = token_program();
    let u = token_2022_program();
    a.same_as(&t) || a.same_as(&u)
}

} // verus!
