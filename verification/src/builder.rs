use crate::address::Address;
use crate::derivation::{
    associated_derives_to, associated_holding_address, law_derive_deterministic, DeriveError,
    DerivedAddress,
};
use crate::error::LedgerError;
use crate::instruction::{instruction_of, meta, AccountMeta, Instruction, InstructionView};
use crate::payload::{
    encode_payload, law_parse_recovers_payload, parses_to, payload_bytes, OperationKind, Payload,
};
use crate::programs::{
    address_of, spec_is_token_program, system_program, ASSOCIATED_ACCOUNT_PROGRAM, RENT_SYSVAR,
    SYSTEM_PROGRAM,
};
use solana_sdk::program_error::ProgramError;
use solana_sdk::pubkey::Pubkey;
use solana_sdk::system_instruction;
use spl_associated_token_account::instruction::create_associated_token_account;
use spl_token_2022::instruction::{initialize_account, initialize_mint, mint_to, transfer_checked};
use vstd::prelude::*;

verus! {

/// The error type of the token program's client library. Nothing is read
/// from it; it is turned into `LedgerError::Encoding`.
#[verifier::external_type_specification]
#[verifier::external_body]
pub struct ExProgramError(ProgramError);

/// One logical operation with everything needed to build its instruction.
#[derive(Clone, Debug, PartialEq, Eq)]
pub enum Operation {
    /// Create `new_account` with `space` bytes, owned by `owner`, funded with
    /// `lamports` from `payer`.
    CreateAccount { payer: Address, new_account: Address, lamports: u64, space: u64, owner: Address },
    /// Move `lamports` of native balance from `from` to `to`.
    NativeTransfer { from: Address, to: Address, lamports: u64 },
    /// Turn `mint` into an asset registry entry.
    InitializeMint {
        token_program: Address,
        mint: Address,
        mint_authority: Address,
        freeze_authority: Option<Address>,
        decimals: u8,
    },
    /// Turn `account` into a holding account of `mint` that `owner` controls.
    InitializeAccount { token_program: Address, account: Address, mint: Address, owner: Address },
    /// Increase the supply of `mint` by `amount`, credited to `destination`.
    MintTo {
        token_program: Address,
        mint: Address,
        destination: Address,
        authority: Address,
        signers: Vec<Address>,
        amount: u64,
    },
    /// Move `amount` of `mint` from `source` to `destination`, stating the
    /// asset's decimals so that the program can check them.
    TransferChecked {
        token_program: Address,
        source: Address,
        mint: Address,
        destination: Address,
        authority: Address,
        signers: Vec<Address>,
        amount: u64,
        decimals: u8,
    },
    /// Create the associated holding account of `holder` for `asset`, paid by `funder`.
    CreateAssociatedAccount { funder: Address, holder: Address, asset: Address, token_program: Address },
}

impl Operation {
    /// The fields that the operation puts into its payload.
    pub open spec fn payload(self) -> Payload {
        match self {
            Operation::CreateAccount { lamports, space, owner, .. } => Payload::CreateAccount {
                lamports,
                space,
                owner,
            },
            Operation::NativeTransfer { lamports, .. } => Payload::NativeTransfer { lamports },
            Operation::InitializeMint {
                mint_authority,
                freeze_authority,
                decimals,
                ..
            } => Payload::InitializeMint { decimals, mint_authority, freeze_authority },
            Operation::InitializeAccount { .. } => Payload::InitializeAccount,
            Operation::MintTo { amount, .. } => Payload::MintTo { amount },
            Operation::TransferChecked { amount, decimals, .. } => Payload::TransferChecked {
                amount,
                decimals,
            },
            Operation::CreateAssociatedAccount { .. } => Payload::CreateAssociatedAccount,
        }
    }

    /// The kind of the operation.
    pub open spec fn kind(self) -> OperationKind {
        self.payload().spec_kind()
    }

    /// The program that the operation's instruction is addressed to.
    pub open spec fn program(self) -> Address {
        match self {
            Operation::CreateAccount { .. } => address_of(SYSTEM_PROGRAM),
            Operation::NativeTransfer { .. } => address_of(SYSTEM_PROGRAM),
            Operation::InitializeMint { token_program, .. } => token_program,
            Operation::InitializeAccount { token_program, .. } => token_program,
            Operation::MintTo { token_program, .. } => token_program,
            Operation::TransferChecked { token_program, .. } => token_program,
            Operation::CreateAssociatedAccount { .. } => address_of(ASSOCIATED_ACCOUNT_PROGRAM),
        }
    }
}

/// Account creation: payer and new account both sign and are written.
pub open spec fn create_account_instruction(
    payer: Address,
    new_account: Address,
    lamports: u64,
    space: u64,
    owner: Address,
) -> InstructionView {
    instruction_of(
        address_of(SYSTEM_PROGRAM),
        seq![meta(payer, true, true), meta(new_account, true, true)],
        payload_bytes(Payload::CreateAccount { lamports, space, owner }),
    )
}

/// Native transfer: the source signs and is written, the destination is written.
pub open spec fn native_transfer_instruction(
    program: Address,
    from: Address,
    to: Address,
    lamports: u64,
) -> InstructionView {
    instruction_of(
        program,
        seq![meta(from, true, true), meta(to, false, true)],
        payload_bytes(Payload::NativeTransfer { lamports }),
    )
}

/// Mint initialization: the mint is written, the rent sysvar is read.
pub open spec fn initialize_mint_instruction(
    token_program: Address,
    mint: Address,
    mint_authority: Address,
    freeze_authority: Option<Address>,
    decimals: u8,
) -> InstructionView {
    instruction_of(
        token_program,
        seq![meta(mint, false, true), meta(address_of(RENT_SYSVAR), false, false)],
        payload_bytes(Payload::InitializeMint { decimals, mint_authority, freeze_authority }),
    )
}

/// Holding-account initialization: the account is written; mint, owner and
/// rent sysvar are read.
pub open spec fn initialize_account_instruction(
    token_program: Address,
    account: Address,
    mint: Address,
    owner: Address,
) -> InstructionView {
    instruction_of(
        token_program,
        seq![
            meta(account, false, true),
            meta(mint, false, false),
            meta(owner, false, false),
            meta(address_of(RENT_SYSVAR), false, false),
        ],
        payload_bytes(Payload::InitializeAccount),
    )
}

/// The tail of a token instruction's account list: the authority, which
/// signs itself only when no co-signers are named, then every co-signer as a
/// read-only signer.
pub open spec fn authority_accounts(authority: Address, signers: Seq<Address>) -> Seq<AccountMeta> {
    seq![meta(authority, signers.len() == 0, false)] + signers.map_values(
        |s: Address| meta(s, true, false),
    )
}

/// Minting: mint and destination are written, then the authority accounts.
pub open spec fn mint_to_instruction(
    token_program: Address,
    mint: Address,
    destination: Address,
    authority: Address,
    signers: Seq<Address>,
    amount: u64,
) -> InstructionView {
    instruction_of(
        token_program,
        seq![meta(mint, false, true), meta(destination, false, true)] + authority_accounts(
            authority,
            signers,
        ),
        payload_bytes(Payload::MintTo { amount }),
    )
}

/// Checked transfer: source and destination are written, the mint is read,
/// then the authority accounts.
pub open spec fn transfer_checked_instruction(
    token_program: Address,
    source: Address,
    mint: Address,
    destination: Address,
    authority: Address,
    signers: Seq<Address>,
    amount: u64,
    decimals: u8,
) -> InstructionView {
    instruction_of(
        token_program,
        seq![meta(source, false, true), meta(mint, false, false), meta(destination, false, true)]
            + authority_accounts(authority, signers),
        payload_bytes(Payload::TransferChecked { amount, decimals }),
    )
}

/// Associated-account creation: the funder signs and is written, the
/// associated account is written; holder, asset, system program and token
/// program are read.
pub open spec fn create_associated_account_instruction(
    funder: Address,
    associated: Address,
    holder: Address,
    asset: Address,
    token_program: Address,
) -> InstructionView {
    instruction_of(
        address_of(ASSOCIATED_ACCOUNT_PROGRAM),
        seq![
            meta(funder, true, true),
            meta(associated, false, true),
            meta(holder, false, false),
            meta(asset, false, false),
            meta(address_of(SYSTEM_PROGRAM), false, false),
            meta(token_program, false, false),
        ],
        payload_bytes(Payload::CreateAssociatedAccount),
    )
}

/// Whether a holder and an asset have an associated holding address.
pub open spec fn has_associated_address(
    holder: Address,
    asset: Address,
    token_program: Address,
) -> bool {
    exists|d: DerivedAddress| associated_derives_to(holder, asset, token_program, Ok(d))
}

/// The associated holding address of a holder and an asset, where they have one.
pub open spec fn associated_address(
    holder: Address,
    asset: Address,
    token_program: Address,
) -> Address {
    (choose|d: DerivedAddress| associated_derives_to(holder, asset, token_program, Ok(d))).address
}

/// What building an operation must return.
///
/// Operations on the system program always build. Token operations build
/// exactly when they name one of the two token programs. Creating an
/// associated account builds exactly when the holder and the asset have an
/// associated address. Every refusal is an encoding error.
pub open spec fn builds_to(op: Operation, r: Result<Instruction, LedgerError>) -> bool {
    match op {
        Operation::CreateAccount { payer, new_account, lamports, space, owner } => r is Ok
            && r->Ok_0@ == create_account_instruction(payer, new_account, lamports, space, owner),
        Operation::NativeTransfer { from, to, lamports } => r is Ok && r->Ok_0@
            == native_transfer_instruction(address_of(SYSTEM_PROGRAM), from, to, lamports),
        Operation::InitializeMint {
            token_program,
            mint,
            mint_authority,
            freeze_authority,
            decimals,
        } => token_built(
            token_program,
            initialize_mint_instruction(
                token_program,
                mint,
                mint_authority,
                freeze_authority,
                decimals,
            ),
            r,
        ),
        Operation::InitializeAccount { token_program, account, mint, owner } => token_built(
            token_program,
            initialize_account_instruction(token_program, account, mint, owner),
            r,
        ),
        Operation::MintTo {
            token_program,
            mint,
            destination,
            authority,
            signers,
            amount,
        } => token_built(
            token_program,
            mint_to_instruction(token_program, mint, destination, authority, signers@, amount),
            r,
        ),
        Operation::TransferChecked {
            token_program,
            source,
            mint,
            destination,
            authority,
            signers,
            amount,
            decimals,
        } => token_built(
            token_program,
            transfer_checked_instruction(
                token_program,
                source,
                mint,
                destination,
                authority,
                signers@,
                amount,
                decimals,
            ),
            r,
        ),
        Operation::CreateAssociatedAccount { funder, holder, asset, token_program } => match r {
            Ok(ix) => has_associated_address(holder, asset, token_program) && ix@
                == create_associated_account_instruction(
                funder,
                associated_address(holder, asset, token_program),
                holder,
                asset,
                token_program,
            ),
            Err(e) => e == LedgerError::Encoding && !has_associated_address(
                holder,
                asset,
                token_program,
            ),
        },
    }
}

/// A token instruction is built as `expected` when addressed to a token
/// program, and refused otherwise.
pub open spec fn token_built(
    token_program: Address,
    expected: InstructionView,
    r: Result<Instruction, LedgerError>,
) -> bool {
    if spec_is_token_program(token_program) {
        r is Ok && r->Ok_0@ == expected
    } else {
        r == Err::<Instruction, LedgerError>(LedgerError::Encoding)
    }
}

/// Calls `system_instruction::create_account` of `solana_sdk`. The contract
/// states the instruction it returns: addressed to the system program, payer
/// and new account as writable signers, and as payload the 32-bit code 0,
/// the two 64-bit fields and the owner.
#[verifier::external_body]
#[allow(deprecated)]
fn sdk_create_account(
    payer: &Address,
    new_account: &Address,
    lamports: u64,
    space: u64,
    owner: &Address,
) -> (ix: Instruction)
    ensures
        ix@ == create_account_instruction(*payer, *new_account, lamports, space, *owner),
{
    let (from, to): (Pubkey, Pubkey) = (payer.bytes.into(), new_account.bytes.into());
    let made = system_instruction::create_account(&from, &to, lamports, space, &owner.bytes.into());
    let accounts = made.accounts.iter().map(|m| AccountMeta { address: Address { bytes: m.pubkey.to_bytes() }, is_signer: m.is_signer, is_writable: m.is_writable }).collect();
    Instruction { program_id: Address { bytes: made.program_id.to_bytes() }, accounts, data: made.data }
}

/// Calls `instruction::initialize_mint` of `spl_token_2022`. The contract
/// states what it returns: an error unless addressed to a token program,
/// else the instruction with the mint writable, the rent sysvar read-only,
/// and as payload the code 0, the decimals, the mint authority and the
/// optional freeze authority.
#[verifier::external_body]
fn spl_initialize_mint(
    token_program: &Address,
    mint: &Address,
    mint_authority: &Address,
    freeze_authority: &Option<Address>,
    decimals: u8,
) -> (r: Result<Instruction, ProgramError>)
    ensures
        r is Ok <==> spec_is_token_program(*token_program),
        r is Ok ==> r->Ok_0@ == initialize_mint_instruction(
            *token_program,
            *mint,
            *mint_authority,
            *freeze_authority,
            decimals,
        ),
{
    let freeze: Option<Pubkey> = freeze_authority.map(|a| a.bytes.into());
    let made = initialize_mint(&token_program.bytes.into(), &mint.bytes.into(), &mint_authority.bytes.into(), freeze.as_ref(), decimals)?;
    let accounts = made.accounts.iter().map(|m| AccountMeta { address: Address { bytes: m.pubkey.to_bytes() }, is_signer: m.is_signer, is_writable: m.is_writable }).collect();
    Ok(Instruction { program_id: Address { bytes: made.program_id.to_bytes() }, accounts, data: made.data })
}

/// Calls `instruction::initialize_account` of `spl_token_2022`. The contract
/// states what it returns: an error unless addressed to a token program,
/// else the instruction with the account writable, then mint, owner and
/// rent sysvar read-only, and the single byte 1 as payload.
#[verifier::external_body]
fn spl_initialize_account(
    token_program: &Address,
    account: &Address,
    mint: &Address,
    owner: &Address,
) -> (r: Result<Instruction, ProgramError>)
    ensures
        r is Ok <==> spec_is_token_program(*token_program),
        r is Ok ==> r->Ok_0@ == initialize_account_instruction(
            *token_program,
            *account,
            *mint,
            *owner,
        ),
{
    let made = initialize_account(&token_program.bytes.into(), &account.bytes.into(), &mint.bytes.into(), &owner.bytes.into())?;
    let accounts = made.accounts.iter().map(|m| AccountMeta { address: Address { bytes: m.pubkey.to_bytes() }, is_signer: m.is_signer, is_writable: m.is_writable }).collect();
    Ok(Instruction { program_id: Address { bytes: made.program_id.to_bytes() }, accounts, data: made.data })
}

/// Calls `instruction::mint_to` of `spl_token_2022`. The contract states
/// what it returns: an error unless addressed to a token program, else the
/// instruction with mint and destination writable, the authority accounts,
/// and as payload the code 7 and the amount.
#[verifier::external_body]
fn spl_mint_to(
    token_program: &Address,
    mint: &Address,
    destination: &Address,
    authority: &Address,
    signers: &Vec<Address>,
    amount: u64,
) -> (r: Result<Instruction, ProgramError>)
    ensures
        r is Ok <==> spec_is_token_program(*token_program),
        r is Ok ==> r->Ok_0@ == mint_to_instruction(
            *token_program,
            *mint,
            *destination,
            *authority,
            signers@,
            amount,
        ),
{
    let keys: Vec<Pubkey> = signers.iter().map(|s| s.bytes.into()).collect();
    let cosigners: Vec<&Pubkey> = keys.iter().collect();
    let made = mint_to(&token_program.bytes.into(), &mint.bytes.into(), &destination.bytes.into(), &authority.bytes.into(), &cosigners, amount)?;
    let accounts = made.accounts.iter().map(|m| AccountMeta { address: Address { bytes: m.pubkey.to_bytes() }, is_signer: m.is_signer, is_writable: m.is_writable }).collect();
    Ok(Instruction { program_id: Address { bytes: made.program_id.to_bytes() }, accounts, data: made.data })
}

/// Calls `instruction::transfer_checked` of `spl_token_2022`. The contract
/// states what it returns: an error unless addressed to a token program,
/// else the instruction with source writable, mint read-only, destination
/// writable, the authority accounts, and as payload the code 12, the amount
/// and the decimals.
#[verifier::external_body]
fn spl_transfer_checked(
    token_program: &Address,
    source: &Address,
    mint: &Address,
    destination: &Address,
    authority: &Address,
    signers: &Vec<Address>,
    amount: u64,
    decimals: u8,
) -> (r: Result<Instruction, ProgramError>)
    ensures
        r is Ok <==> spec_is_token_program(*token_program),
        r is Ok ==> r->Ok_0@ == transfer_checked_instruction(
            *token_program,
            *source,
            *mint,
            *destination,
            *authority,
            signers@,
            amount,
            decimals,
        ),
{
    let keys: Vec<Pubkey> = signers.iter().map(|s| s.bytes.into()).collect();
    let cosigners: Vec<&Pubkey> = keys.iter().collect();
    let made = transfer_checked(&token_program.bytes.into(), &source.bytes.into(), &mint.bytes.into(), &destination.bytes.into(), &authority.bytes.into(), &cosigners, amount, decimals)?;
    let accounts = made.accounts.iter().map(|m| AccountMeta { address: Address { bytes: m.pubkey.to_bytes() }, is_signer: m.is_signer, is_writable: m.is_writable }).collect();
    Ok(Instruction { program_id: Address { bytes: made.program_id.to_bytes() }, accounts, data: made.data })
}

/// Calls `instruction::create_associated_token_account` of
/// `spl_associated_token_account`, which derives the associated address
/// itself and panics where the search finds none; `requires` leaves those
/// inputs out. The contract states the instruction it returns: addressed to
/// the associated-account program, funder as writable signer, the
/// associated address writable, then holder, asset, system program and
/// token program read-only, and the single byte 0 as payload.
#[verifier::external_body]
fn spl_create_associated_account(
    funder: &Address,
    holder: &Address,
    asset: &Address,
    token_program: &Address,
) -> (ix: Instruction)
    requires
        has_associated_address(*holder, *asset, *token_program),
    ensures
        ix@ == create_associated_account_instruction(
            *funder,
            associated_address(*holder, *asset, *token_program),
            *holder,
            *asset,
            *token_program,
        ),
{
    let made = create_associated_token_account(&funder.bytes.into(), &holder.bytes.into(), &asset.bytes.into(), &token_program.bytes.into());
    let accounts = made.accounts.iter().map(|m| AccountMeta { address: Address { bytes: m.pubkey.to_bytes() }, is_signer: m.is_signer, is_writable: m.is_writable }).collect();
    Instruction { program_id: Address { bytes: made.program_id.to_bytes() }, accounts, data: made.data }
}

/// The library's error for a refusal by the token program's client library:
/// whatever the client objects to, the operation cannot be encoded.
pub fn refused(e: ProgramError) -> (r: LedgerError)
    ensures
        r == LedgerError::Encoding,
{
    LedgerError::Encoding
}

/// Builds a native-balance transfer addressed to `program`: the 32-bit code 2
/// and the amount, both little-endian, with the source as writable signer and
/// the destination writable.
pub fn native_transfer(program: &Address, from: &Address, to: &Address, lamports: u64) -> (ix:
    Instruction)
    ensures
        ix@ == native_transfer_instruction(*program, *from, *to, lamports),
{
    let mut accounts: Vec<AccountMeta> = Vec::new();
    accounts.push(AccountMeta::writable(*from, true));
    accounts.push(AccountMeta::writable(*to, false));
    let data = encode_payload(&Payload::NativeTransfer { lamports });
    let ix = Instruction::new(*program, accounts, data);
    assert(ix@.accounts =~= seq![meta(*from, true, true), meta(*to, false, true)]);
    ix
}

/// Builds the instruction of one operation: target program, account list
/// with privileges, and payload.
///
/// Accounts are not looked up and balances are not checked: that is for the
/// target program to do when the instruction runs.
pub fn build(op: &Operation) -> (r: Result<Instruction, LedgerError>)
    ensures
        builds_to(*op, r),
{
    match op {
        Operation::CreateAccount { payer, new_account, lamports, space, owner } => Ok(
            sdk_create_account(payer, new_account, *lamports, *space, owner),
        ),
        Operation::NativeTransfer { from, to, lamports } => {
            let program = system_program();
            Ok(native_transfer(&program, from, to, *lamports))
        },
        Operation::InitializeMint {
            token_program,
            mint,
            mint_authority,
            freeze_authority,
            decimals,
        } => match spl_initialize_mint(
            token_program,
            mint,
            mint_authority,
            freeze_authority,
            *decimals,
        ) {
            Ok(ix) => Ok(ix),
            Err(e) => Err(refused(e)),
        },
        Operation::InitializeAccount {
            token_program,
            account,
            mint,
            owner,
        } => match spl_initialize_account(token_program, account, mint, owner) {
            Ok(ix) => Ok(ix),
            Err(e) => Err(refused(e)),
        },
        Operation::MintTo {
            token_program,
            mint,
            destination,
            authority,
            signers,
            amount,
        } => match spl_mint_to(token_program, mint, destination, authority, signers, *amount) {
            Ok(ix) => Ok(ix),
            Err(e) => Err(refused(e)),
        },
        Operation::TransferChecked {
            token_program,
            source,
            mint,
            destination,
            authority,
            signers,
            amount,
            decimals,
        } => match spl_transfer_checked(
            token_program,
            source,
            mint,
            destination,
            authority,
            signers,
            *amount,
            *decimals,
        ) {
            Ok(ix) => Ok(ix),
            Err(e) => Err(refused(e)),
        },
        Operation::CreateAssociatedAccount { funder, holder, asset, token_program } => {
            match associated_holding_address(holder, asset, token_program) {
                Ok(d) => Ok(spl_create_associated_account(funder, holder, asset, token_program)),
                Err(e) => {
                    proof {
                        lemma_no_associated_address(*holder, *asset, *token_program);
                    }
                    Err(LedgerError::Encoding)
                },
            }
        },
    }
}

/// Where the search has failed, no derivation of the same inputs succeeds.
pub proof fn lemma_no_associated_address(holder: Address, asset: Address, token_program: Address)
    requires
        associated_derives_to(holder, asset, token_program, Err(DeriveError::NoViableBump)),
    ensures
        !has_associated_address(holder, asset, token_program),
{
    if has_associated_address(holder, asset, token_program) {
        let d = choose|d: DerivedAddress|
            associated_derives_to(holder, asset, token_program, Ok(d));
        law_derive_deterministic(
            crate::derivation::associated_seeds(holder, asset, token_program),
            address_of(ASSOCIATED_ACCOUNT_PROGRAM),
            Ok(d),
            Err(DeriveError::NoViableBump),
        );
    }
}

/// The associated address is the one that derivation returns.
pub proof fn lemma_associated_address(
    holder: Address,
    asset: Address,
    token_program: Address,
    d: DerivedAddress,
)
    requires
        associated_derives_to(holder, asset, token_program, Ok(d)),
    ensures
        has_associated_address(holder, asset, token_program),
        associated_address(holder, asset, token_program) == d.address,
{
    let c = choose|c: DerivedAddress| associated_derives_to(holder, asset, token_program, Ok(c));
    law_derive_deterministic(
        crate::derivation::associated_seeds(holder, asset, token_program),
        address_of(ASSOCIATED_ACCOUNT_PROGRAM),
        Ok(d),
        Ok(c),
    );
}

/// Every instruction that `build` returns is addressed to the operation's
/// program and carries exactly the bytes of the operation's payload.
pub proof fn law_build_carries_payload(op: Operation, ix: Instruction)
    requires
        builds_to(op, Ok(ix)),
    ensures
        ix@.program_id == op.program(),
        ix@.data == payload_bytes(op.payload()),
{
}

/// Round trip: re-reading the payload of a built instruction under the
/// operation's kind recovers the operation's fields exactly.
pub proof fn law_build_then_parse(op: Operation, ix: Instruction, r: Result<Payload, LedgerError>)
    requires
        builds_to(op, Ok(ix)),
        parses_to(op.kind(), ix@.data, r),
    ensures
        r == Ok::<Payload, LedgerError>(op.payload()),
{
    law_build_carries_payload(op, ix);
    law_parse_recovers_payload(op.payload(), r);
}

} // verus!
