use crate::address::Address;
use crate::builder::{
    associated_address, build, builds_to, create_account_instruction,
    create_associated_account_instruction, has_associated_address, initialize_account_instruction,
    initialize_mint_instruction, lemma_associated_address, lemma_no_associated_address,
    mint_to_instruction, transfer_checked_instruction, Operation,
};
use crate::derivation::associated_holding_address;
use crate::error::LedgerError;
use crate::instruction::{views, Instruction, InstructionView};
use crate::programs::{address_of, spec_is_token_program, token_2022_program, TOKEN_2022_PROGRAM};
use crate::rent::{HOLDING_ACCOUNT_LEN, MINT_ACCOUNT_LEN};
use vstd::pervasive::unreached;
use vstd::prelude::*;

verus! {

/// The instructions that create an asset registry entry at `mint`: an
/// account of the right size owned by the extensible token program, then its
/// initialization with the fee payer as mint and freeze authority.
pub open spec fn mint_creation_instructions(
    fee_payer: Address,
    mint: Address,
    rent: u64,
    decimals: u8,
) -> Seq<InstructionView> {
    seq![
        create_account_instruction(
            fee_payer,
            mint,
            rent,
            MINT_ACCOUNT_LEN,
            address_of(TOKEN_2022_PROGRAM),
        ),
        initialize_mint_instruction(
            address_of(TOKEN_2022_PROGRAM),
            mint,
            fee_payer,
            Some(fee_payer),
            decimals,
        ),
    ]
}

/// The instructions that create a holding account of `mint` at `account`,
/// controlled by the fee payer.
pub open spec fn holding_account_creation_instructions(
    fee_payer: Address,
    account: Address,
    mint: Address,
    rent: u64,
) -> Seq<InstructionView> {
    seq![
        create_account_instruction(
            fee_payer,
            account,
            rent,
            HOLDING_ACCOUNT_LEN,
            address_of(TOKEN_2022_PROGRAM),
        ),
        initialize_account_instruction(address_of(TOKEN_2022_PROGRAM), account, mint, fee_payer),
    ]
}

/// The instructions that create a mint, the associated holding accounts of
/// the fee payer and of a recipient, and mint `amount` to the fee payer's.
pub open spec fn mint_and_fund_instructions(
    fee_payer: Address,
    recipient: Address,
    mint: Address,
    rent: u64,
    decimals: u8,
    amount: u64,
) -> Seq<InstructionView> {
    let program = address_of(TOKEN_2022_PROGRAM);
    mint_creation_instructions(fee_payer, mint, rent, decimals) + seq![
        create_associated_account_instruction(
            fee_payer,
            associated_address(fee_payer, mint, program),
            fee_payer,
            mint,
            program,
        ),
        create_associated_account_instruction(
            fee_payer,
            associated_address(recipient, mint, program),
            recipient,
            mint,
            program,
        ),
        mint_to_instruction(
            program,
            mint,
            associated_address(fee_payer, mint, program),
            fee_payer,
            seq![fee_payer],
            amount,
        ),
    ]
}

/// The instruction that moves `amount` from the fee payer's associated
/// holding account to the recipient's.
pub open spec fn associated_transfer_instructions(
    fee_payer: Address,
    recipient: Address,
    mint: Address,
    amount: u64,
    decimals: u8,
) -> Seq<InstructionView> {
    let program = address_of(TOKEN_2022_PROGRAM);
    seq![
        transfer_checked_instruction(
            program,
            associated_address(fee_payer, mint, program),
            mint,
            associated_address(recipient, mint, program),
            fee_payer,
            seq![fee_payer],
            amount,
            decimals,
        ),
    ]
}

/// Builds an operation that cannot be refused.
fn build_system_or_token(op: &Operation) -> (ix: Instruction)
    requires
        !(*op is CreateAssociatedAccount),
        *op is CreateAccount || *op is NativeTransfer || spec_is_token_program(op.program()),
    ensures
        builds_to(*op, Ok(ix)),
{
    let r = build(op);
    proof {
        match *op {
            Operation::CreateAccount { .. } => {
                assert(r is Ok);
            },
            Operation::NativeTransfer { .. } => {
                assert(r is Ok);
            },
            Operation::InitializeMint { token_program, .. } => {
                assert(op.program() == token_program);
                assert(r is Ok);
            },
            Operation::InitializeAccount { token_program, .. } => {
                assert(op.program() == token_program);
                assert(r is Ok);
            },
            Operation::MintTo { token_program, .. } => {
                assert(op.program() == token_program);
                assert(r is Ok);
            },
            Operation::TransferChecked { token_program, .. } => {
                assert(op.program() == token_program);
                assert(r is Ok);
            },
            Operation::CreateAssociatedAccount { .. } => {},
        }
    }
    match r {
        Ok(ix) => ix,
        Err(_) => unreached(),
    }
}

/// Plans the creation of an asset registry entry. `rent` is the minimum
/// balance for an account of `MINT_ACCOUNT_LEN` bytes, as the ledger's
/// current schedule gives it.
pub fn mint_creation(fee_payer: &Address, mint: &Address, rent: u64, decimals: u8) -> (plan: Vec<
    Instruction,
>)
    ensures
        views(plan@) == mint_creation_instructions(*fee_payer, *mint, rent, decimals),
{
    let program = token_2022_program();
    let create = build_system_or_token(
        &Operation::CreateAccount {
            payer: *fee_payer,
            new_account: *mint,
            lamports: rent,
            space: MINT_ACCOUNT_LEN,
            owner: program,
        },
    );
    let initialize = build_system_or_token(
        &Operation::InitializeMint {
            token_program: program,
            mint: *mint,
            mint_authority: *fee_payer,
            freeze_authority: Some(*fee_payer),
            decimals,
        },
    );
    let mut plan: Vec<Instruction> = Vec::new();
    plan.push(create);
    plan.push(initialize);
    assert(views(plan@) =~= mint_creation_instructions(*fee_payer, *mint, rent, decimals));
    plan
}

/// Plans the creation of a holding account. `rent` is the minimum balance
/// for an account of `HOLDING_ACCOUNT_LEN` bytes.
pub fn holding_account_creation(
    fee_payer: &Address,
    account: &Address,
    mint: &Address,
    rent: u64,
) -> (plan: Vec<Instruction>)
    ensures
        views(plan@) == holding_account_creation_instructions(*fee_payer, *account, *mint, rent),
{
    let program = token_2022_program();
    let create = build_system_or_token(
        &Operation::CreateAccount {
            payer: *fee_payer,
            new_account: *account,
            lamports: rent,
            space: HOLDING_ACCOUNT_LEN,
            owner: program,
        },
    );
    let initialize = build_system_or_token(
        &Operation::InitializeAccount {
            token_program: program,
            account: *account,
            mint: *mint,
            owner: *fee_payer,
        },
    );
    let mut plan: Vec<Instruction> = Vec::new();
    plan.push(create);
    plan.push(initialize);
    assert(views(plan@) =~= holding_account_creation_instructions(
        *fee_payer,
        *account,
        *mint,
        rent,
    ));
    plan
}

/// Whether both the fee payer and the recipient have an associated holding
/// address for `mint` under the extensible token program.
pub open spec fn both_have_associated_addresses(
    fee_payer: Address,
    recipient: Address,
    mint: Address,
) -> bool {
    &&& has_associated_address(fee_payer, mint, address_of(TOKEN_2022_PROGRAM))
    &&& has_associated_address(recipient, mint, address_of(TOKEN_2022_PROGRAM))
}

/// Finds an associated holding address, as an option.
fn find_associated(holder: &Address, mint: &Address, program: &Address) -> (r: Option<Address>)
    ensures
        r is Some <==> has_associated_address(*holder, *mint, *program),
        r is Some ==> r->0 == associated_address(*holder, *mint, *program),
{
    match associated_holding_address(holder, mint, program) {
        Ok(d) => {
            proof {
                lemma_associated_address(*holder, *mint, *program, d);
            }
            Some(d.address)
        },
        Err(_) => {
            proof {
                lemma_no_associated_address(*holder, *mint, *program);
            }
            None
        },
    }
}

/// Builds the creation of an associated account that is known to exist.
fn build_associated(funder: &Address, holder: &Address, mint: &Address, program: &Address) -> (ix:
    Instruction)
    requires
        has_associated_address(*holder, *mint, *program),
    ensures
        ix@ == create_associated_account_instruction(
            *funder,
            associated_address(*holder, *mint, *program),
            *holder,
            *mint,
            *program,
        ),
{
    let op = Operation::CreateAssociatedAccount {
        funder: *funder,
        holder: *holder,
        asset: *mint,
        token_program: *program,
    };
    match build(&op) {
        Ok(ix) => ix,
        Err(_) => {
            proof {
                assert(false);
            }
            unreached()
        },
    }
}

/// Plans a mint, both associated holding accounts and a first issue of
/// `amount` to the fee payer, all for one transaction. Fails with an
/// encoding error exactly when one of the two holders has no associated
/// address.
pub fn mint_and_fund(
    fee_payer: &Address,
    recipient: &Address,
    mint: &Address,
    rent: u64,
    decimals: u8,
    amount: u64,
) -> (r: Result<Vec<Instruction>, LedgerError>)
    ensures
        both_have_associated_addresses(*fee_payer, *recipient, *mint) ==> r is Ok && views(
            r->Ok_0@,
        ) == mint_and_fund_instructions(*fee_payer, *recipient, *mint, rent, decimals, amount),
        !both_have_associated_addresses(*fee_payer, *recipient, *mint) ==> r == Err::<
            Vec<Instruction>,
            LedgerError,
        >(LedgerError::Encoding),
{
    let program = token_2022_program();
    let payer_account = match find_associated(fee_payer, mint, &program) {
        Some(a) => a,
        None => {
            return Err(LedgerError::Encoding);
        },
    };
    if find_associated(recipient, mint, &program).is_none() {
        return Err(LedgerError::Encoding);
    }
    let mut plan = mint_creation(fee_payer, mint, rent, decimals);
    let ghost head = views(plan@);
    plan.push(build_associated(fee_payer, fee_payer, mint, &program));
    plan.push(build_associated(fee_payer, recipient, mint, &program));
    let mut signers: Vec<Address> = Vec::new();
    signers.push(*fee_payer);
    let issue = build_system_or_token(
        &Operation::MintTo {
            token_program: program,
            mint: *mint,
            destination: payer_account,
            authority: *fee_payer,
            signers,
            amount,
        },
    );
    plan.push(issue);
    proof {
        assert(issue@ == mint_to_instruction(
            program,
            *mint,
            payer_account,
            *fee_payer,
            seq![*fee_payer],
            amount,
        ));
        assert(views(plan@) =~= mint_and_fund_instructions(
            *fee_payer,
            *recipient,
            *mint,
            rent,
            decimals,
            amount,
        ));
    }
    Ok(plan)
}

/// Plans the transfer of `amount` between the associated holding accounts
/// of the fee payer and of a recipient. Fails with an encoding error exactly
/// when one of the two has no associated address.
pub fn associated_transfer(
    fee_payer: &Address,
    recipient: &Address,
    mint: &Address,
    amount: u64,
    decimals: u8,
) -> (r: Result<Vec<Instruction>, LedgerError>)
    ensures
        both_have_associated_addresses(*fee_payer, *recipient, *mint) ==> r is Ok && views(
            r->Ok_0@,
        ) == associated_transfer_instructions(*fee_payer, *recipient, *mint, amount, decimals),
        !both_have_associated_addresses(*fee_payer, *recipient, *mint) ==> r == Err::<
            Vec<Instruction>,
            LedgerError,
        >(LedgerError::Encoding),
{
    let program = token_2022_program();
    let source = match find_associated(fee_payer, mint, &program) {
        Some(a) => a,
        None => {
            return Err(LedgerError::Encoding);
        },
    };
    let destination = match find_associated(recipient, mint, &program) {
        Some(a) => a,
        None => {
            return Err(LedgerError::Encoding);
        },
    };
    let mut signers: Vec<Address> = Vec::new();
    signers.push(*fee_payer);
    let transfer = build_system_or_token(
        &Operation::TransferChecked {
            token_program: program,
            source,
            mint: *mint,
            destination,
            authority: *fee_payer,
            signers,
            amount,
            decimals,
        },
    );
    let mut plan: Vec<Instruction> = Vec::new();
    plan.push(transfer);
    proof {
        assert(transfer@ == transfer_checked_instruction(
            program,
            source,
            *mint,
            destination,
            *fee_payer,
            seq![*fee_payer],
            amount,
            decimals,
        ));
        assert(views(plan@) =~= associated_transfer_instructions(
            *fee_payer,
            *recipient,
            *mint,
            amount,
            decimals,
        ));
    }
    Ok(plan)
}

} // verus!
