use crate::address::Address;
use crate::instruction::{views, AccountMeta, Instruction, InstructionView};
use vstd::prelude::*;

verus! {

/// Whether an instruction names `a`, as its program or in its account list.
pub open spec fn instruction_mentions(ix: InstructionView, a: Address) -> bool {
    ix.program_id == a || exists|j: int|
        0 <= j < ix.accounts.len() && (#[trigger] ix.accounts[j]).address == a
}

/// Whether an instruction lists `a` with the signer privilege.
pub open spec fn instruction_needs_signature(ix: InstructionView, a: Address) -> bool {
    exists|j: int|
        0 <= j < ix.accounts.len() && (#[trigger] ix.accounts[j]).address == a
            && ix.accounts[j].is_signer
}

/// Whether a transaction of these instructions, paid by `payer`, names `a`.
pub open spec fn is_referenced(ixs: Seq<InstructionView>, payer: Address, a: Address) -> bool {
    a == payer || exists|i: int| 0 <= i < ixs.len() && instruction_mentions(#[trigger] ixs[i], a)
}

/// Whether a transaction of these instructions, paid by `payer`, needs the
/// signature of `a`: the payer always signs, and so does every address that
/// any instruction lists as a signer.
pub open spec fn must_sign(ixs: Seq<InstructionView>, payer: Address, a: Address) -> bool {
    a == payer || exists|i: int|
        0 <= i < ixs.len() && instruction_needs_signature(#[trigger] ixs[i], a)
}

/// The addresses that a transaction names.
pub open spec fn referenced(ixs: Seq<InstructionView>, payer: Address) -> Set<Address> {
    Set::new(|a: Address| is_referenced(ixs, payer, a))
}

/// The addresses whose signature a transaction needs.
pub open spec fn required_signers(ixs: Seq<InstructionView>, payer: Address) -> Set<Address> {
    Set::new(|a: Address| must_sign(ixs, payer, a))
}

/// Whether `list` holds each member of `set` once and nothing else.
pub open spec fn lists_exactly(list: Seq<Address>, set: Set<Address>) -> bool {
    &&& list.no_duplicates()
    &&& forall|a: Address| list.contains(a) <==> set.contains(a)
}

/// `list` with `a` appended, unless `a` stands in it already.
pub open spec fn with_unique(list: Seq<Address>, a: Address) -> Seq<Address> {
    if list.contains(a) {
        list
    } else {
        list.push(a)
    }
}

/// `list` with the members of `more` appended in order, each unless it
/// stands there already.
pub open spec fn extend_unique(list: Seq<Address>, more: Seq<Address>) -> Seq<Address>
    decreases more.len(),
{
    if more.len() == 0 {
        list
    } else {
        with_unique(extend_unique(list, more.drop_last()), more.last())
    }
}

/// The addresses that an instruction names, in order: its program, then its accounts.
pub open spec fn instruction_addresses(ix: InstructionView) -> Seq<Address> {
    seq![ix.program_id] + ix.accounts.map_values(|m: AccountMeta| m.address)
}

/// The addresses that a list of accounts gives the signer privilege, in order.
pub open spec fn signer_addresses(accounts: Seq<AccountMeta>) -> Seq<Address>
    decreases accounts.len(),
{
    if accounts.len() == 0 {
        Seq::<Address>::empty()
    } else if accounts.last().is_signer {
        signer_addresses(accounts.drop_last()).push(accounts.last().address)
    } else {
        signer_addresses(accounts.drop_last())
    }
}

/// The addresses that a transaction names, each once, in the order in which
/// they first appear: the payer, then instruction by instruction.
pub open spec fn referenced_list(ixs: Seq<InstructionView>, payer: Address) -> Seq<Address>
    decreases ixs.len(),
{
    if ixs.len() == 0 {
        seq![payer]
    } else {
        extend_unique(referenced_list(ixs.drop_last(), payer), instruction_addresses(ixs.last()))
    }
}

/// The addresses whose signature a transaction needs, each once, in the
/// order in which they first appear: the payer, then instruction by
/// instruction.
pub open spec fn signer_list(ixs: Seq<InstructionView>, payer: Address) -> Seq<Address>
    decreases ixs.len(),
{
    if ixs.len() == 0 {
        seq![payer]
    } else {
        extend_unique(signer_list(ixs.drop_last(), payer), signer_addresses(ixs.last().accounts))
    }
}

/// A list that holds each member of a set once has the set's size.
pub proof fn lemma_listed_set(list: Seq<Address>, set: Set<Address>)
    requires
        lists_exactly(list, set),
    ensures
        set.finite(),
        set.len() == list.len(),
        set == list.to_set(),
{
    assert(set =~= list.to_set());
    vstd::seq_lib::seq_to_set_is_finite(list);
    list.unique_seq_to_set();
}

/// The first place at which `a` stands in `list`, if it stands there at all.
pub fn position_of(list: &Vec<Address>, a: &Address) -> (r: Option<usize>)
    ensures
        match r {
            Some(i) => i < list.len() && list@[i as int] == *a && forall|j: int|
                0 <= j < i ==> list@[j] != *a,
            None => !list@.contains(*a),
        },
{
    let mut i: usize = 0;
    while i < list.len()
        invariant
            i <= list.len(),
            forall|j: int| 0 <= j < i ==> list@[j] != *a,
        decreases list.len() - i,
    {
        if list[i].same_as(a) {
            return Some(i);
        }
        i = i + 1;
    }
    None
}

/// Appends `a` unless it is there already.
pub fn push_unique(list: &mut Vec<Address>, a: Address)
    ensures
        old(list)@.no_duplicates() ==> final(list)@.no_duplicates(),
        forall|x: Address| final(list)@.contains(x) <==> (old(list)@.contains(x) || x == a),
        final(list)@ == if old(list)@.contains(a) {
            old(list)@
        } else {
            old(list)@.push(a)
        },
        old(list)@.is_prefix_of(final(list)@),
{
    match position_of(list, &a) {
        Some(_) => {},
        None => {
            list.push(a);
            proof {
                let before = old(list)@;
                let after = list@;
                assert(after == before.push(a));
                assert forall|x: Address| after.contains(x) <==> (before.contains(x) || x
                    == a) by {
                    if after.contains(x) {
                        let k = choose|k: int| 0 <= k < after.len() && after[k] == x;
                        if k < before.len() {
                            assert(before[k] == x);
                        }
                    }
                    if before.contains(x) {
                        let k = choose|k: int| 0 <= k < before.len() && before[k] == x;
                        assert(after[k] == x);
                    }
                    if x == a {
                        assert(after[before.len() as int] == a);
                    }
                }
            }
        },
    }
}

/// Adds every address that `ix` names to `keys`.
fn add_mentions(keys: &mut Vec<Address>, ix: &Instruction)
    requires
        old(keys)@.no_duplicates(),
    ensures
        final(keys)@ == extend_unique(old(keys)@, instruction_addresses(ix@)),
        final(keys)@.no_duplicates(),
        forall|x: Address|
            final(keys)@.contains(x) <==> (old(keys)@.contains(x) || instruction_mentions(ix@, x)),
        old(keys)@.is_prefix_of(final(keys)@),
{
    let ghost named = instruction_addresses(ix@);
    push_unique(keys, ix.program_id);
    proof {
        assert(named.take(1) =~= seq![ix.program_id]);
        assert(named.take(1).drop_last() =~= Seq::<Address>::empty());
        assert(extend_unique(old(keys)@, named.take(1).drop_last()) == old(keys)@);
        assert(named.take(1).last() == ix.program_id);
    }
    let mut j: usize = 0;
    while j < ix.accounts.len()
        invariant
            j <= ix.accounts.len(),
            named == instruction_addresses(ix@),
            named.len() == ix.accounts.len() + 1,
            keys@ == extend_unique(old(keys)@, named.take(j + 1)),
            keys@.no_duplicates(),
            old(keys)@.is_prefix_of(keys@),
            forall|x: Address|
                keys@.contains(x) <==> (old(keys)@.contains(x) || x == ix.program_id || exists|
                    k: int,
                | 0 <= k < j && (#[trigger] ix.accounts@[k]).address == x),
        decreases ix.accounts.len() - j,
    {
        let ghost before = keys@;
        let a = ix.accounts[j].address;
        push_unique(keys, a);
        proof {
            assert(named.take(j + 2).drop_last() =~= named.take(j + 1));
            assert(named.take(j + 2).last() == a);
            assert forall|x: Address|
                keys@.contains(x) <==> (old(keys)@.contains(x) || x == ix.program_id || exists|
                    k: int,
                | 0 <= k < j + 1 && (#[trigger] ix.accounts@[k]).address == x) by {
                if x == a {
                    assert(ix.accounts@[j as int].address == x);
                }
                if exists|k: int| 0 <= k < j + 1 && (#[trigger] ix.accounts@[k]).address == x {
                    let k = choose|k: int|
                        0 <= k < j + 1 && (#[trigger] ix.accounts@[k]).address == x;
                    if k < j {
                        assert(before.contains(x));
                    }
                }
            }
        }
        j = j + 1;
    }
    proof {
        let v = ix@;
        assert(v.accounts == ix.accounts@);
        assert(named.take(named.len() as int) =~= named);
        assert forall|x: Address|
            keys@.contains(x) <==> (old(keys)@.contains(x) || instruction_mentions(v, x)) by {
            if instruction_mentions(v, x) && v.program_id != x {
                let k = choose|k: int|
                    0 <= k < v.accounts.len() && (#[trigger] v.accounts[k]).address == x;
                assert(ix.accounts@[k].address == x);
            }
            if exists|k: int| 0 <= k < j && (#[trigger] ix.accounts@[k]).address == x {
                let k = choose|k: int| 0 <= k < j && (#[trigger] ix.accounts@[k]).address == x;
                assert(v.accounts[k].address == x);
            }
        }
    }
}

/// Adds every address that `ix` lists as a signer to `keys`.
fn add_signers(keys: &mut Vec<Address>, ix: &Instruction)
    requires
        old(keys)@.no_duplicates(),
    ensures
        final(keys)@ == extend_unique(old(keys)@, signer_addresses(ix@.accounts)),
        final(keys)@.no_duplicates(),
        forall|x: Address|
            final(keys)@.contains(x) <==> (old(keys)@.contains(x) || instruction_needs_signature(
                ix@,
                x,
            )),
        old(keys)@.is_prefix_of(final(keys)@),
{
    let mut j: usize = 0;
    proof {
        assert(ix.accounts@.take(0) =~= Seq::<AccountMeta>::empty());
    }
    while j < ix.accounts.len()
        invariant
            j <= ix.accounts.len(),
            keys@ == extend_unique(old(keys)@, signer_addresses(ix.accounts@.take(j as int))),
            keys@.no_duplicates(),
            old(keys)@.is_prefix_of(keys@),
            forall|x: Address|
                keys@.contains(x) <==> (old(keys)@.contains(x) || exists|k: int|
                    0 <= k < j && (#[trigger] ix.accounts@[k]).address == x
                        && ix.accounts@[k].is_signer),
        decreases ix.accounts.len() - j,
    {
        let ghost before = keys@;
        let m = ix.accounts[j];
        if m.is_signer {
            push_unique(keys, m.address);
        }
        proof {
            let shorter = ix.accounts@.take(j as int);
            let longer = ix.accounts@.take(j + 1);
            assert(longer.drop_last() =~= shorter);
            assert(longer.last() == m);
            if m.is_signer {
                let listed = signer_addresses(longer);
                assert(listed == signer_addresses(shorter).push(m.address));
                assert(listed.drop_last() =~= signer_addresses(shorter));
                assert(listed.last() == m.address);
            }
            assert forall|x: Address|
                keys@.contains(x) <==> (old(keys)@.contains(x) || exists|k: int|
                    0 <= k < j + 1 && (#[trigger] ix.accounts@[k]).address == x
                        && ix.accounts@[k].is_signer) by {
                if m.is_signer && x == m.address {
                    assert(ix.accounts@[j as int].address == x && ix.accounts@[j as int].is_signer);
                }
                if exists|k: int|
                    0 <= k < j + 1 && (#[trigger] ix.accounts@[k]).address == x
                        && ix.accounts@[k].is_signer {
                    let k = choose|k: int|
                        0 <= k < j + 1 && (#[trigger] ix.accounts@[k]).address == x
                            && ix.accounts@[k].is_signer;
                    if k < j {
                        assert(before.contains(x));
                    }
                }
            }
        }
        j = j + 1;
    }
    proof {
        let v = ix@;
        assert(v.accounts == ix.accounts@);
        assert(ix.accounts@.take(ix.accounts@.len() as int) =~= ix.accounts@);
        assert forall|x: Address|
            keys@.contains(x) <==> (old(keys)@.contains(x) || instruction_needs_signature(
                v,
                x,
            )) by {
            if instruction_needs_signature(v, x) {
                let k = choose|k: int|
                    0 <= k < v.accounts.len() && (#[trigger] v.accounts[k]).address == x
                        && v.accounts[k].is_signer;
                assert(ix.accounts@[k].address == x && ix.accounts@[k].is_signer);
            }
            if exists|k: int|
                0 <= k < j && (#[trigger] ix.accounts@[k]).address == x
                    && ix.accounts@[k].is_signer {
                let k = choose|k: int|
                    0 <= k < j && (#[trigger] ix.accounts@[k]).address == x
                        && ix.accounts@[k].is_signer;
                assert(v.accounts[k].address == x && v.accounts[k].is_signer);
            }
        }
    }
}

/// Every address that a transaction names, each once, the payer first.
pub fn referenced_addresses(instructions: &Vec<Instruction>, payer: &Address) -> (keys: Vec<
    Address,
>)
    ensures
        keys@ == referenced_list(views(instructions@), *payer),
        lists_exactly(keys@, referenced(views(instructions@), *payer)),
        keys@.len() >= 1,
        keys@[0] == *payer,
{
    let ghost ixs = views(instructions@);
    let mut keys: Vec<Address> = Vec::new();
    keys.push(*payer);
    assert(keys@.contains(*payer)) by {
        assert(keys@[0] == *payer);
    }
    proof {
        assert(ixs.take(0) =~= Seq::<InstructionView>::empty());
        assert(keys@ =~= seq![*payer]);
    }
    let mut i: usize = 0;
    while i < instructions.len()
        invariant
            i <= instructions.len(),
            ixs == views(instructions@),
            keys@ == referenced_list(ixs.take(i as int), *payer),
            keys@.no_duplicates(),
            keys@.len() >= 1,
            keys@[0] == *payer,
            forall|x: Address|
                keys@.contains(x) <==> (x == *payer || exists|k: int|
                    0 <= k < i && instruction_mentions(#[trigger] ixs[k], x)),
        decreases instructions.len() - i,
    {
        let ghost before = keys@;
        add_mentions(&mut keys, &instructions[i]);
        proof {
            assert(ixs[i as int] == instructions@[i as int]@);
            assert(ixs.take(i + 1).drop_last() =~= ixs.take(i as int));
            assert(ixs.take(i + 1).last() == ixs[i as int]);
            assert forall|x: Address|
                keys@.contains(x) <==> (x == *payer || exists|k: int|
                    0 <= k < i + 1 && instruction_mentions(#[trigger] ixs[k], x)) by {
                if exists|k: int| 0 <= k < i + 1 && instruction_mentions(#[trigger] ixs[k], x) {
                    let k = choose|k: int|
                        0 <= k < i + 1 && instruction_mentions(#[trigger] ixs[k], x);
                    if k < i {
                        assert(before.contains(x));
                    }
                }
                if instruction_mentions(ixs[i as int], x) {
                    assert(0 <= i < i + 1 && instruction_mentions(ixs[i as int], x));
                }
            }
        }
        i = i + 1;
    }
    proof {
        assert(ixs.take(ixs.len() as int) =~= ixs);
        assert forall|a: Address| keys@.contains(a) <==> referenced(ixs, *payer).contains(a) by {}
    }
    keys
}

/// Every address whose signature a transaction needs, each once, the payer first.
pub fn required_signer_addresses(instructions: &Vec<Instruction>, payer: &Address) -> (keys: Vec<
    Address,
>)
    ensures
        keys@ == signer_list(views(instructions@), *payer),
        lists_exactly(keys@, required_signers(views(instructions@), *payer)),
        keys@.len() >= 1,
        keys@[0] == *payer,
{
    let ghost ixs = views(instructions@);
    let mut keys: Vec<Address> = Vec::new();
    keys.push(*payer);
    assert(keys@.contains(*payer)) by {
        assert(keys@[0] == *payer);
    }
    proof {
        assert(ixs.take(0) =~= Seq::<InstructionView>::empty());
        assert(keys@ =~= seq![*payer]);
    }
    let mut i: usize = 0;
    while i < instructions.len()
        invariant
            i <= instructions.len(),
            ixs == views(instructions@),
            keys@ == signer_list(ixs.take(i as int), *payer),
            keys@.no_duplicates(),
            keys@.len() >= 1,
            keys@[0] == *payer,
            forall|x: Address|
                keys@.contains(x) <==> (x == *payer || exists|k: int|
                    0 <= k < i && instruction_needs_signature(#[trigger] ixs[k], x)),
        decreases instructions.len() - i,
    {
        let ghost before = keys@;
        add_signers(&mut keys, &instructions[i]);
        proof {
            assert(ixs[i as int] == instructions@[i as int]@);
            assert(ixs.take(i + 1).drop_last() =~= ixs.take(i as int));
            assert(ixs.take(i + 1).last() == ixs[i as int]);
            assert forall|x: Address|
                keys@.contains(x) <==> (x == *payer || exists|k: int|
                    0 <= k < i + 1 && instruction_needs_signature(#[trigger] ixs[k], x)) by {
                if exists|k: int|
                    0 <= k < i + 1 && instruction_needs_signature(#[trigger] ixs[k], x) {
                    let k = choose|k: int|
                        0 <= k < i + 1 && instruction_needs_signature(#[trigger] ixs[k], x);
                    if k < i {
                        assert(before.contains(x));
                    }
                }
                if instruction_needs_signature(ixs[i as int], x) {
                    assert(0 <= i < i + 1 && instruction_needs_signature(ixs[i as int], x));
                }
            }
        }
        i = i + 1;
    }
    proof {
        assert(ixs.take(ixs.len() as int) =~= ixs);
        assert forall|a: Address|
            keys@.contains(a) <==> required_signers(ixs, *payer).contains(a) by {}
    }
    keys
}

/// Whoever must sign is named: the required signers are among the
/// referenced addresses.
pub proof fn law_signers_are_referenced(ixs: Seq<InstructionView>, payer: Address, a: Address)
    requires
        must_sign(ixs, payer, a),
    ensures
        is_referenced(ixs, payer, a),
{
    if a != payer {
        let i = choose|i: int| 0 <= i < ixs.len() && instruction_needs_signature(#[trigger] ixs[i], a);
        assert(instruction_mentions(ixs[i], a));
    }
}

} // verus!
