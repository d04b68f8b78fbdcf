use crate::address::Address;
use crate::builder::{native_transfer, native_transfer_instruction};
use crate::error::LedgerError;
use crate::instruction::{instruction_of, meta, AccountMeta, Instruction, InstructionView};
use vstd::prelude::*;

verus! {

/// Stack height of an instruction that stands in the transaction itself.
pub const TOP_LEVEL_STACK_HEIGHT: usize = 1;

/// Greatest stack height at which the ledger runs an instruction.
pub const MAX_STACK_HEIGHT: usize = 5;

/// Whether the caller holds `a` with at least the privileges asked: some
/// entry of `held` names `a`, is a signer if `signer` is asked, and is
/// writable if `writable` is asked.
pub open spec fn holds(held: Seq<AccountMeta>, a: Address, signer: bool, writable: bool) -> bool {
    exists|j: int|
        0 <= j < held.len() && (#[trigger] held[j]).address == a && (signer ==> held[j].is_signer)
            && (writable ==> held[j].is_writable)
}

/// Whether what `m` asks for is granted by what the caller holds: the
/// account itself, and each privilege that `m` claims on it.
pub open spec fn grants(held: Seq<AccountMeta>, m: AccountMeta) -> bool {
    &&& holds(held, m.address, false, false)
    &&& m.is_signer ==> holds(held, m.address, true, false)
    &&& m.is_writable ==> holds(held, m.address, false, true)
}

/// Whether every requested entry is granted.
pub open spec fn all_granted(held: Seq<AccountMeta>, requested: Seq<AccountMeta>) -> bool {
    forall|i: int| 0 <= i < requested.len() ==> grants(held, #[trigger] requested[i])
}

/// The accounts handed to the runtime with a sub-call: those of the
/// instruction, then the callee's program account without privileges.
pub open spec fn passed_accounts(program_id: Address, requested: Seq<AccountMeta>) -> Seq<
    AccountMeta,
> {
    requested.push(meta(program_id, false, false))
}

/// A sub-call that passed the dispatcher's checks and is handed to the
/// runtime: the dispatcher's second state.
#[derive(Clone, Debug, PartialEq, Eq)]
pub struct InvokedCall {
    /// The instruction to run.
    pub instruction: Instruction,
    /// The accounts to hand over with it.
    pub passed: Vec<AccountMeta>,
    /// The stack height at which the callee runs.
    pub stack_height: usize,
}

/// What invoking must return.
///
/// A request for an account or a privilege that the caller does not hold is
/// a privilege escalation, whatever the depth. Else a call that would run
/// above the ledger's greatest stack height exceeds the call depth. Else the
/// call is handed over as built, one level above its caller.
pub open spec fn invokes_to(
    program_id: Address,
    requested: Seq<AccountMeta>,
    data: Seq<u8>,
    held: Seq<AccountMeta>,
    stack_height: usize,
    r: Result<InvokedCall, LedgerError>,
) -> bool {
    if !all_granted(held, requested) {
        r == Err::<InvokedCall, LedgerError>(LedgerError::PrivilegeEscalation)
    } else if stack_height >= MAX_STACK_HEIGHT {
        r == Err::<InvokedCall, LedgerError>(LedgerError::CallDepthExceeded)
    } else {
        &&& r is Ok
        &&& r->Ok_0.instruction@ == instruction_of(program_id, requested, data)
        &&& r->Ok_0.passed@ == passed_accounts(program_id, requested)
        &&& r->Ok_0.stack_height == stack_height + 1
    }
}

/// Whether the caller holds `a` with at least the privileges asked.
pub fn check_holds(held: &Vec<AccountMeta>, a: &Address, signer: bool, writable: bool) -> (r: bool)
    ensures
        r == holds(held@, *a, signer, writable),
{
    let mut j: usize = 0;
    while j < held.len()
        invariant
            j <= held.len(),
            forall|k: int|
                0 <= k < j ==> !((#[trigger] held@[k]).address == *a && (signer
                    ==> held@[k].is_signer) && (writable ==> held@[k].is_writable)),
        decreases held.len() - j,
    {
        let h = held[j];
        if h.address.same_as(a) && (!signer || h.is_signer) && (!writable || h.is_writable) {
            return true;
        }
        j = j + 1;
    }
    false
}

/// Whether what `m` asks for is granted by what the caller holds.
pub fn check_grants(held: &Vec<AccountMeta>, m: &AccountMeta) -> (r: bool)
    ensures
        r == grants(held@, *m),
{
    check_holds(held, &m.address, false, false) && (!m.is_signer || check_holds(
        held,
        &m.address,
        true,
        false,
    )) && (!m.is_writable || check_holds(held, &m.address, false, true))
}

/// A sub-call under construction: the dispatcher's first state.
#[derive(Clone, Debug, PartialEq, Eq)]
pub struct CpiDispatcher {
    pub program_id: Address,
    pub accounts: Vec<AccountMeta>,
    pub data: Vec<u8>,
}

impl View for CpiDispatcher {
    type V = InstructionView;

    open spec fn view(&self) -> InstructionView {
        instruction_of(self.program_id, self.accounts@, self.data@)
    }
}

impl CpiDispatcher {
    /// Starts a sub-call to `program_id`, with no accounts and an empty payload.
    pub fn new(program_id: Address) -> (d: CpiDispatcher)
        ensures
            d@ == instruction_of(program_id, Seq::<AccountMeta>::empty(), Seq::<u8>::empty()),
    {
        CpiDispatcher { program_id, accounts: Vec::new(), data: Vec::new() }
    }

    /// Adds an account with the privileges the callee is to have on it.
    pub fn account(self, m: AccountMeta) -> (d: CpiDispatcher)
        ensures
            d@ == instruction_of(self.program_id, self.accounts@.push(m), self.data@),
    {
        let mut d = self;
        d.accounts.push(m);
        d
    }

    /// Sets the payload.
    pub fn payload(self, data: Vec<u8>) -> (d: CpiDispatcher)
        ensures
            d@ == instruction_of(self.program_id, self.accounts@, data@),
    {
        let mut d = self;
        d.data = data;
        d
    }

    /// Takes over the parts of a built instruction.
    pub fn from_instruction(ix: Instruction) -> (d: CpiDispatcher)
        ensures
            d@ == ix@,
    {
        CpiDispatcher { program_id: ix.program_id, accounts: ix.accounts, data: ix.data }
    }

    /// Checks the sub-call against what its caller holds and against the
    /// ledger's depth limit, and hands it over.
    ///
    /// `held` are the accounts of the running program's own invocation with
    /// the privileges that the runtime verified; `stack_height` is the height
    /// at which that program runs.
    pub fn invoke(self, held: &Vec<AccountMeta>, stack_height: usize) -> (r: Result<
        InvokedCall,
        LedgerError,
    >)
        ensures
            invokes_to(self.program_id, self.accounts@, self.data@, held@, stack_height, r),
    {
        let mut i: usize = 0;
        while i < self.accounts.len()
            invariant
                i <= self.accounts.len(),
                forall|k: int| 0 <= k < i ==> grants(held@, #[trigger] self.accounts@[k]),
            decreases self.accounts.len() - i,
        {
            if !check_grants(held, &self.accounts[i]) {
                return Err(LedgerError::PrivilegeEscalation);
            }
            i = i + 1;
        }
        if stack_height >= MAX_STACK_HEIGHT {
            return Err(LedgerError::CallDepthExceeded);
        }
        let mut passed: Vec<AccountMeta> = Vec::new();
        let mut j: usize = 0;
        while j < self.accounts.len()
            invariant
                j <= self.accounts.len(),
                passed@ == self.accounts@.subrange(0, j as int),
            decreases self.accounts.len() - j,
        {
            passed.push(self.accounts[j]);
            j = j + 1;
        }
        assert(self.accounts@.subrange(0, self.accounts@.len() as int) == self.accounts@);
        passed.push(AccountMeta::readonly(self.program_id, false));
        let instruction = Instruction::new(self.program_id, self.accounts, self.data);
        Ok(InvokedCall { instruction, passed, stack_height: stack_height + 1 })
    }
}

/// The accounts with which a native-balance transfer is called from inside a
/// running program, each with the privileges that the runtime verified for
/// that program's own invocation.
#[derive(Clone, Copy, Debug, PartialEq, Eq)]
pub struct SolTransfer {
    pub sender: AccountMeta,
    pub recipient: AccountMeta,
    pub system_program: AccountMeta,
}

impl SolTransfer {
    /// What the running program holds: its three accounts.
    pub open spec fn spec_held(&self) -> Seq<AccountMeta> {
        seq![self.sender, self.recipient, self.system_program]
    }

    /// What the running program holds, as a list.
    pub fn held(&self) -> (v: Vec<AccountMeta>)
        ensures
            v@ == self.spec_held(),
    {
        let mut v: Vec<AccountMeta> = Vec::new();
        v.push(self.sender);
        v.push(self.recipient);
        v.push(self.system_program);
        assert(v@ =~= self.spec_held());
        v
    }
}

/// Builds a native-balance transfer of `amount` from the sender to the
/// recipient, addressed to the context's system program, and dispatches it
/// as a sub-call of the program that runs at `stack_height`.
///
/// The transfer asks for the sender as writable signer and for the
/// recipient as writable; it is handed over only where the context holds
/// both, and only where one more level of nesting is allowed.
pub fn sol_transfer(ctx: &SolTransfer, amount: u64, stack_height: usize) -> (r: Result<
    InvokedCall,
    LedgerError,
>)
    ensures
        invokes_to(
            ctx.system_program.address,
            native_transfer_instruction(
                ctx.system_program.address,
                ctx.sender.address,
                ctx.recipient.address,
                amount,
            ).accounts,
            native_transfer_instruction(
                ctx.system_program.address,
                ctx.sender.address,
                ctx.recipient.address,
                amount,
            ).data,
            ctx.spec_held(),
            stack_height,
            r,
        ),
{
    let instruction = native_transfer(
        &ctx.system_program.address,
        &ctx.sender.address,
        &ctx.recipient.address,
        amount,
    );
    let held = ctx.held();
    CpiDispatcher::from_instruction(instruction).invoke(&held, stack_height)
}

/// A sub-call cannot widen privileges: where it asks for an account as
/// writable that its caller holds only as read-only, or as signer where the
/// caller holds no signature for it, or for an account that the caller does
/// not hold at all, invoking fails with a privilege escalation and no call
/// is handed over.
pub proof fn law_no_privilege_escalation(
    program_id: Address,
    requested: Seq<AccountMeta>,
    data: Seq<u8>,
    held: Seq<AccountMeta>,
    stack_height: usize,
    r: Result<InvokedCall, LedgerError>,
    i: int,
)
    requires
        invokes_to(program_id, requested, data, held, stack_height, r),
        0 <= i < requested.len(),
        !holds(held, requested[i].address, requested[i].is_signer, false) || !holds(
            held,
            requested[i].address,
            false,
            requested[i].is_writable,
        ),
    ensures
        r == Err::<InvokedCall, LedgerError>(LedgerError::PrivilegeEscalation),
{
    let m = requested[i];
    if grants(held, m) {
        if m.is_signer {
            assert(holds(held, m.address, true, false));
        } else {
            assert(holds(held, m.address, false, false));
        }
        if m.is_writable {
            assert(holds(held, m.address, false, true));
        } else {
            assert(holds(held, m.address, false, false));
        }
    }
}

/// Whatever is handed over stays within what the caller holds and within
/// the ledger's depth: every account of the call is granted, and the callee
/// runs no higher than the greatest stack height.
pub proof fn law_invoked_call_is_within_bounds(
    program_id: Address,
    requested: Seq<AccountMeta>,
    data: Seq<u8>,
    held: Seq<AccountMeta>,
    stack_height: usize,
    call: InvokedCall,
)
    requires
        invokes_to(program_id, requested, data, held, stack_height, Ok(call)),
    ensures
        all_granted(held, call.instruction@.accounts),
        call.stack_height <= MAX_STACK_HEIGHT,
        call.stack_height == stack_height + 1,
{
}

} // verus!
