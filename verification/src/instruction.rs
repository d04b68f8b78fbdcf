use crate::address::Address;
use vstd::prelude::*;

verus! {

/// One entry of an instruction's account list: an address and the two
/// privileges the instruction claims on it.
#[derive(Clone, Copy, Debug, PartialEq, Eq)]
pub struct AccountMeta {
    pub address: Address,
    pub is_signer: bool,
    pub is_writable: bool,
}

/// An entry with the given address and privileges.
pub open spec fn meta(address: Address, is_signer: bool, is_writable: bool) -> AccountMeta {
    AccountMeta { address, is_signer, is_writable }
}

impl AccountMeta {
    /// An entry with the given address and privileges.
    pub fn new(address: Address, is_signer: bool, is_writable: bool) -> (m: AccountMeta)
        ensures
            m == meta(address, is_signer, is_writable),
    {
        AccountMeta { address, is_signer, is_writable }
    }

    /// A writable entry.
    pub fn writable(address: Address, is_signer: bool) -> (m: AccountMeta)
        ensures
            m == meta(address, is_signer, true),
    {
        AccountMeta { address, is_signer, is_writable: true }
    }

    /// A read-only entry.
    pub fn readonly(address: Address, is_signer: bool) -> (m: AccountMeta)
        ensures
            m == meta(address, is_signer, false),
    {
        AccountMeta { address, is_signer, is_writable: false }
    }
}

/// One request to a ledger program: the program, the accounts it may touch
/// with the privileges claimed on each, and an opaque payload.
#[derive(Clone, Debug, PartialEq, Eq)]
pub struct Instruction {
    pub program_id: Address,
    pub accounts: Vec<AccountMeta>,
    pub data: Vec<u8>,
}

/// What an instruction is, as mathematical values.
pub ghost struct InstructionView {
    pub program_id: Address,
    pub accounts: Seq<AccountMeta>,
    pub data: Seq<u8>,
}

/// The instruction made of the three given parts.
pub open spec fn instruction_of(
    program_id: Address,
    accounts: Seq<AccountMeta>,
    data: Seq<u8>,
) -> InstructionView {
    InstructionView { program_id, accounts, data }
}

impl View for Instruction {
    type V = InstructionView;

    open spec fn view(&self) -> InstructionView {
        instruction_of(self.program_id, self.accounts@, self.data@)
    }
}

impl Instruction {
    /// Puts the three parts together; nothing is checked here, since a
    /// mismatch between payload and account list is for the target program
    /// to report.
    pub fn new(program_id: Address, accounts: Vec<AccountMeta>, data: Vec<u8>) -> (ix: Instruction)
        ensures
            ix@ == instruction_of(program_id, accounts@, data@),
    {
        Instruction { program_id, accounts, data }
    }

    /// A copy with the same three parts.
    pub fn duplicate(&self) -> (ix: Instruction)
        ensures
            ix@ == self@,
    {
        let mut accounts: Vec<AccountMeta> = Vec::new();
        let mut i: usize = 0;
        while i < self.accounts.len()
            invariant
                i <= self.accounts.len(),
                accounts@ == self.accounts@.subrange(0, i as int),
            decreases self.accounts.len() - i,
        {
            accounts.push(self.accounts[i]);
            i = i + 1;
        }
        assert(self.accounts@.subrange(0, self.accounts.len() as int) == self.accounts@);
        let mut data: Vec<u8> = Vec::new();
        let mut j: usize = 0;
        while j < self.data.len()
            invariant
                j <= self.data.len(),
                data@ == self.data@.subrange(0, j as int),
            decreases self.data.len() - j,
        {
            data.push(self.data[j]);
            j = j + 1;
        }
        assert(self.data@.subrange(0, self.data.len() as int) == self.data@);
        Instruction { program_id: self.program_id, accounts, data }
    }
}

/// The views of a list of instructions, in order.
pub open spec fn views(instructions: Seq<Instruction>) -> Seq<InstructionView> {
    instructions.map_values(|ix: Instruction| ix@)
}

} // verus!
