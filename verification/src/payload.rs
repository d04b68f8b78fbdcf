use crate::address::{lemma_address_ext, Address};
use crate::error::LedgerError;
use crate::wire::{
    le_u32, le_u64, lemma_le_u32_bytes, lemma_le_u32_value, lemma_le_u64_bytes,
    lemma_le_u64_value, push_le_u32, push_le_u64, read_le_u32, read_le_u64,
};
use vstd::prelude::*;

verus! {

/// The operations whose payload layout this library knows.
#[derive(Clone, Copy, Debug, PartialEq, Eq, Structural)]
pub enum OperationKind {
    CreateAccount,
    NativeTransfer,
    InitializeMint,
    InitializeAccount,
    MintTo,
    TransferChecked,
    CreateAssociatedAccount,
}

/// The fields that travel in an instruction's payload, one variant per
/// operation kind.
#[derive(Clone, Copy, Debug, PartialEq, Eq)]
pub enum Payload {
    CreateAccount { lamports: u64, space: u64, owner: Address },
    NativeTransfer { lamports: u64 },
    InitializeMint { decimals: u8, mint_authority: Address, freeze_authority: Option<Address> },
    InitializeAccount,
    MintTo { amount: u64 },
    TransferChecked { amount: u64, decimals: u8 },
    CreateAssociatedAccount,
}

impl Payload {
    /// The operation kind a payload belongs to.
    pub open spec fn spec_kind(self) -> OperationKind {
        match self {
            Payload::CreateAccount { .. } => OperationKind::CreateAccount,
            Payload::NativeTransfer { .. } => OperationKind::NativeTransfer,
            Payload::InitializeMint { .. } => OperationKind::InitializeMint,
            Payload::InitializeAccount => OperationKind::InitializeAccount,
            Payload::MintTo { .. } => OperationKind::MintTo,
            Payload::TransferChecked { .. } => OperationKind::TransferChecked,
            Payload::CreateAssociatedAccount => OperationKind::CreateAssociatedAccount,
        }
    }

    #[verifier::when_used_as_spec(spec_kind)]
    pub fn kind(self) -> (k: OperationKind)
        ensures
            k == self.spec_kind(),
    {
        match self {
            Payload::CreateAccount { .. } => OperationKind::CreateAccount,
            Payload::NativeTransfer { .. } => OperationKind::NativeTransfer,
            Payload::InitializeMint { .. } => OperationKind::InitializeMint,
            Payload::InitializeAccount => OperationKind::InitializeAccount,
            Payload::MintTo { .. } => OperationKind::MintTo,
            Payload::TransferChecked { .. } => OperationKind::TransferChecked,
            Payload::CreateAssociatedAccount => OperationKind::CreateAssociatedAccount,
        }
    }
}

/// The programs whose payloads this library lays out.
#[derive(Clone, Copy, Debug, PartialEq, Eq, Structural)]
pub enum ProgramFamily {
    System,
    Token,
    AssociatedAccount,
}

impl OperationKind {
    /// The program family that reads payloads of this kind.
    pub open spec fn spec_family(self) -> ProgramFamily {
        match self {
            OperationKind::CreateAccount => ProgramFamily::System,
            OperationKind::NativeTransfer => ProgramFamily::System,
            OperationKind::InitializeMint => ProgramFamily::Token,
            OperationKind::InitializeAccount => ProgramFamily::Token,
            OperationKind::MintTo => ProgramFamily::Token,
            OperationKind::TransferChecked => ProgramFamily::Token,
            OperationKind::CreateAssociatedAccount => ProgramFamily::AssociatedAccount,
        }
    }

    #[verifier::when_used_as_spec(spec_family)]
    pub fn family(self) -> (f: ProgramFamily)
        ensures
            f == self.spec_family(),
    {
        match self {
            OperationKind::CreateAccount => ProgramFamily::System,
            OperationKind::NativeTransfer => ProgramFamily::System,
            OperationKind::InitializeMint => ProgramFamily::Token,
            OperationKind::InitializeAccount => ProgramFamily::Token,
            OperationKind::MintTo => ProgramFamily::Token,
            OperationKind::TransferChecked => ProgramFamily::Token,
            OperationKind::CreateAssociatedAccount => ProgramFamily::AssociatedAccount,
        }
    }
}

/// The leading bytes by which the target program tells operations apart.
/// The system program reads a 32-bit little-endian code, the token and
/// associated-account programs a single byte.
pub open spec fn discriminator(kind: OperationKind) -> Seq<u8> {
    match kind {
        OperationKind::CreateAccount => le_u32(0),
        OperationKind::NativeTransfer => le_u32(2),
        OperationKind::InitializeMint => seq![0u8],
        OperationKind::InitializeAccount => seq![1u8],
        OperationKind::MintTo => seq![7u8],
        OperationKind::TransferChecked => seq![12u8],
        OperationKind::CreateAssociatedAccount => seq![0u8],
    }
}

/// An optional address on the wire: a zero byte for none, a one byte and the
/// address for some.
pub open spec fn optional_address_bytes(a: Option<Address>) -> Seq<u8> {
    match a {
        Some(address) => seq![1u8] + address@,
        None => seq![0u8],
    }
}

/// The bytes that follow the discriminator: each field at fixed width,
/// integers little-endian, in the order the target program reads them.
pub open spec fn field_bytes(p: Payload) -> Seq<u8> {
    match p {
        Payload::CreateAccount { lamports, space, owner } => le_u64(lamports) + le_u64(space)
            + owner@,
        Payload::NativeTransfer { lamports } => le_u64(lamports),
        Payload::InitializeMint { decimals, mint_authority, freeze_authority } => seq![decimals]
            + mint_authority@ + optional_address_bytes(freeze_authority),
        Payload::InitializeAccount => Seq::<u8>::empty(),
        Payload::MintTo { amount } => le_u64(amount),
        Payload::TransferChecked { amount, decimals } => le_u64(amount) + seq![decimals],
        Payload::CreateAssociatedAccount => Seq::<u8>::empty(),
    }
}

/// The whole payload: discriminator, then fields.
pub open spec fn payload_bytes(p: Payload) -> Seq<u8> {
    discriminator(p.spec_kind()) + field_bytes(p)
}

/// What re-reading `data` as a payload of kind `kind` must give: the one
/// payload of that kind whose bytes are exactly `data`, or an encoding error
/// when there is none.
pub open spec fn parses_to(
    kind: OperationKind,
    data: Seq<u8>,
    r: Result<Payload, LedgerError>,
) -> bool {
    match r {
        Ok(p) => p.spec_kind() == kind && payload_bytes(p) == data,
        Err(e) => e == LedgerError::Encoding && forall|p: Payload|
            p.spec_kind() == kind ==> #[trigger] payload_bytes(p) != data,
    }
}

/// A signed amount as the unsigned value the wire carries.
/// Negative amounts have no encoding and are refused.
pub fn checked_amount(value: i64) -> (r: Result<u64, LedgerError>)
    ensures
        value >= 0 ==> r == Ok::<u64, LedgerError>(value as u64),
        value < 0 ==> r == Err::<u64, LedgerError>(LedgerError::Encoding),
{
    if value < 0 {
        Err(LedgerError::Encoding)
    } else {
        Ok(value as u64)
    }
}

/// A decimal precision as the single byte the wire carries.
/// Values outside 0..=255 have no encoding and are refused.
pub fn checked_decimals(value: i64) -> (r: Result<u8, LedgerError>)
    ensures
        0 <= value <= 255 ==> r == Ok::<u8, LedgerError>(value as u8),
        !(0 <= value <= 255) ==> r == Err::<u8, LedgerError>(LedgerError::Encoding),
{
    if value < 0 || value > 255 {
        Err(LedgerError::Encoding)
    } else {
        Ok(value as u8)
    }
}

/// The discriminator of a kind, as bytes ready to be sent.
pub fn discriminator_bytes(kind: OperationKind) -> (v: Vec<u8>)
    ensures
        v@ == discriminator(kind),
{
    let mut v: Vec<u8> = Vec::new();
    match kind {
        OperationKind::CreateAccount => {
            push_le_u32(&mut v, 0);
        },
        OperationKind::NativeTransfer => {
            push_le_u32(&mut v, 2);
        },
        OperationKind::InitializeMint => {
            v.push(0);
        },
        OperationKind::InitializeAccount => {
            v.push(1);
        },
        OperationKind::MintTo => {
            v.push(7);
        },
        OperationKind::TransferChecked => {
            v.push(12);
        },
        OperationKind::CreateAssociatedAccount => {
            v.push(0);
        },
    }
    assert(v@ =~= discriminator(kind));
    v
}

/// Serializes a payload.
pub fn encode_payload(p: &Payload) -> (v: Vec<u8>)
    ensures
        v@ == payload_bytes(*p),
{
    let mut v: Vec<u8> = discriminator_bytes(p.kind());
    match *p {
        Payload::CreateAccount { lamports, space, owner } => {
            push_le_u64(&mut v, lamports);
            push_le_u64(&mut v, space);
            owner.append_to(&mut v);
        },
        Payload::NativeTransfer { lamports } => {
            push_le_u64(&mut v, lamports);
        },
        Payload::InitializeMint { decimals, mint_authority, freeze_authority } => {
            v.push(decimals);
            mint_authority.append_to(&mut v);
            match freeze_authority {
                Some(address) => {
                    v.push(1);
                    address.append_to(&mut v);
                },
                None => {
                    v.push(0);
                },
            }
        },
        Payload::InitializeAccount => {},
        Payload::MintTo { amount } => {
            push_le_u64(&mut v, amount);
        },
        Payload::TransferChecked { amount, decimals } => {
            push_le_u64(&mut v, amount);
            v.push(decimals);
        },
        Payload::CreateAssociatedAccount => {},
    }
    assert(v@ =~= payload_bytes(*p));
    v
}

/// Length of the payload of each kind; an initialize-mint payload is longer
/// by an address when it names a freeze authority.
pub proof fn lemma_payload_len(p: Payload)
    ensures
        payload_bytes(p).len() == match p {
            Payload::CreateAccount { .. } => 52int,
            Payload::NativeTransfer { .. } => 12,
            Payload::InitializeMint { freeze_authority, .. } => if freeze_authority is Some {
                67
            } else {
                35
            },
            Payload::InitializeAccount => 1,
            Payload::MintTo { .. } => 9,
            Payload::TransferChecked { .. } => 10,
            Payload::CreateAssociatedAccount => 1,
        },
{
}

/// Re-reads a payload of the given kind from its bytes.
pub fn parse_payload(kind: OperationKind, data: &Vec<u8>) -> (r: Result<Payload, LedgerError>)
    ensures
        parses_to(kind, data@, r),
{
    match kind {
        OperationKind::CreateAccount => parse_create_account(data),
        OperationKind::NativeTransfer => parse_native_transfer(data),
        OperationKind::InitializeMint => parse_initialize_mint(data),
        OperationKind::InitializeAccount => parse_bare(data, OperationKind::InitializeAccount),
        OperationKind::MintTo => parse_mint_to(data),
        OperationKind::TransferChecked => parse_transfer_checked(data),
        OperationKind::CreateAssociatedAccount => parse_bare(
            data,
            OperationKind::CreateAssociatedAccount,
        ),
    }
}

fn parse_create_account(data: &Vec<u8>) -> (r: Result<Payload, LedgerError>)
    ensures
        parses_to(OperationKind::CreateAccount, data@, r),
{
    if data.len() != 52 {
        assert forall|p: Payload| p.spec_kind() == OperationKind::CreateAccount implies
            #[trigger] payload_bytes(p) != data@ by {
            lemma_payload_len(p);
        }
        return Err(LedgerError::Encoding);
    }
    let tag = read_le_u32(data, 0);
    if tag != 0 {
        assert forall|p: Payload| p.spec_kind() == OperationKind::CreateAccount implies
            #[trigger] payload_bytes(p) != data@ by {
            if payload_bytes(p) == data@ {
                assert(data@.subrange(0, 4) =~= le_u32(0));
                lemma_le_u32_value(0);
            }
        }
        return Err(LedgerError::Encoding);
    }
    let lamports = read_le_u64(data, 4);
    let space = read_le_u64(data, 12);
    let owner = Address::read_from(data, 20);
    let p = Payload::CreateAccount { lamports, space, owner };
    proof {
        lemma_le_u32_bytes(data@.subrange(0, 4));
        lemma_le_u64_bytes(data@.subrange(4, 12));
        lemma_le_u64_bytes(data@.subrange(12, 20));
        assert(payload_bytes(p) =~= data@);
    }
    Ok(p)
}

fn parse_native_transfer(data: &Vec<u8>) -> (r: Result<Payload, LedgerError>)
    ensures
        parses_to(OperationKind::NativeTransfer, data@, r),
{
    if data.len() != 12 {
        assert forall|p: Payload| p.spec_kind() == OperationKind::NativeTransfer implies
            #[trigger] payload_bytes(p) != data@ by {
            lemma_payload_len(p);
        }
        return Err(LedgerError::Encoding);
    }
    let tag = read_le_u32(data, 0);
    if tag != 2 {
        assert forall|p: Payload| p.spec_kind() == OperationKind::NativeTransfer implies
            #[trigger] payload_bytes(p) != data@ by {
            if payload_bytes(p) == data@ {
                assert(data@.subrange(0, 4) =~= le_u32(2));
                lemma_le_u32_value(2);
            }
        }
        return Err(LedgerError::Encoding);
    }
    let lamports = read_le_u64(data, 4);
    let p = Payload::NativeTransfer { lamports };
    proof {
        lemma_le_u32_bytes(data@.subrange(0, 4));
        lemma_le_u64_bytes(data@.subrange(4, 12));
        assert(payload_bytes(p) =~= data@);
    }
    Ok(p)
}

fn parse_initialize_mint(data: &Vec<u8>) -> (r: Result<Payload, LedgerError>)
    ensures
        parses_to(OperationKind::InitializeMint, data@, r),
{
    let n = data.len();
    if n != 35 && n != 67 {
        assert forall|p: Payload| p.spec_kind() == OperationKind::InitializeMint implies
            #[trigger] payload_bytes(p) != data@ by {
            lemma_payload_len(p);
        }
        return Err(LedgerError::Encoding);
    }
    let option_tag: u8 = data[34];
    let expected_tag: u8 = if n == 35 {
        0
    } else {
        1
    };
    if data[0] != 0 || option_tag != expected_tag {
        assert forall|p: Payload| p.spec_kind() == OperationKind::InitializeMint implies
            #[trigger] payload_bytes(p) != data@ by {
            lemma_payload_len(p);
            if payload_bytes(p) == data@ {
                assert(payload_bytes(p)[0] == 0);
                assert(payload_bytes(p)[34] == expected_tag);
            }
        }
        return Err(LedgerError::Encoding);
    }
    let decimals: u8 = data[1];
    let mint_authority = Address::read_from(data, 2);
    let freeze_authority = if n == 35 {
        None
    } else {
        Some(Address::read_from(data, 35))
    };
    let p = Payload::InitializeMint { decimals, mint_authority, freeze_authority };
    proof {
        assert(payload_bytes(p) =~= data@);
    }
    Ok(p)
}

fn parse_bare(data: &Vec<u8>, kind: OperationKind) -> (r: Result<Payload, LedgerError>)
    requires
        kind == OperationKind::InitializeAccount || kind == OperationKind::CreateAssociatedAccount,
    ensures
        parses_to(kind, data@, r),
{
    let expected: u8 = match kind {
        OperationKind::InitializeAccount => 1,
        _ => 0,
    };
    if data.len() != 1 || data[0] != expected {
        assert forall|p: Payload| p.spec_kind() == kind implies #[trigger] payload_bytes(p)
            != data@ by {
            lemma_payload_len(p);
            if payload_bytes(p) == data@ {
                assert(payload_bytes(p)[0] == expected);
            }
        }
        return Err(LedgerError::Encoding);
    }
    let p = match kind {
        OperationKind::InitializeAccount => Payload::InitializeAccount,
        _ => Payload::CreateAssociatedAccount,
    };
    proof {
        assert(payload_bytes(p) =~= data@);
    }
    Ok(p)
}

fn parse_mint_to(data: &Vec<u8>) -> (r: Result<Payload, LedgerError>)
    ensures
        parses_to(OperationKind::MintTo, data@, r),
{
    if data.len() != 9 || data[0] != 7 {
        assert forall|p: Payload| p.spec_kind() == OperationKind::MintTo implies
            #[trigger] payload_bytes(p) != data@ by {
            lemma_payload_len(p);
            if payload_bytes(p) == data@ {
                assert(payload_bytes(p)[0] == 7);
            }
        }
        return Err(LedgerError::Encoding);
    }
    let amount = read_le_u64(data, 1);
    let p = Payload::MintTo { amount };
    proof {
        lemma_le_u64_bytes(data@.subrange(1, 9));
        assert(payload_bytes(p) =~= data@);
    }
    Ok(p)
}

fn parse_transfer_checked(data: &Vec<u8>) -> (r: Result<Payload, LedgerError>)
    ensures
        parses_to(OperationKind::TransferChecked, data@, r),
{
    if data.len() != 10 || data[0] != 12 {
        assert forall|p: Payload| p.spec_kind() == OperationKind::TransferChecked implies
            #[trigger] payload_bytes(p) != data@ by {
            lemma_payload_len(p);
            if payload_bytes(p) == data@ {
                assert(payload_bytes(p)[0] == 12);
            }
        }
        return Err(LedgerError::Encoding);
    }
    let amount = read_le_u64(data, 1);
    let decimals: u8 = data[9];
    let p = Payload::TransferChecked { amount, decimals };
    proof {
        lemma_le_u64_bytes(data@.subrange(1, 9));
        assert(payload_bytes(p) =~= data@);
    }
    Ok(p)
}

/// Two 64-bit values with the same little-endian bytes are the same value.
proof fn lemma_le_u64_injective(x: u64, y: u64)
    requires
        le_u64(x) == le_u64(y),
    ensures
        x == y,
{
    lemma_le_u64_value(x);
    lemma_le_u64_value(y);
}

/// No two payloads of one kind share their bytes.
pub proof fn lemma_payload_bytes_injective(p: Payload, q: Payload)
    requires
        p.spec_kind() == q.spec_kind(),
        payload_bytes(p) == payload_bytes(q),
    ensures
        p == q,
{
    lemma_payload_len(p);
    lemma_payload_len(q);
    let b = payload_bytes(p);
    let c = payload_bytes(q);
    match p {
        Payload::CreateAccount { lamports, space, owner } => {
            let l2 = q->CreateAccount_lamports;
            let s2 = q->CreateAccount_space;
            let o2 = q->CreateAccount_owner;
            assert(b.subrange(4, 12) =~= le_u64(lamports));
            assert(c.subrange(4, 12) =~= le_u64(l2));
            assert(b.subrange(12, 20) =~= le_u64(space));
            assert(c.subrange(12, 20) =~= le_u64(s2));
            assert(b.subrange(20, 52) =~= owner@);
            assert(c.subrange(20, 52) =~= o2@);
            lemma_le_u64_injective(lamports, l2);
            lemma_le_u64_injective(space, s2);
            lemma_address_ext(owner, o2);
        },
        Payload::NativeTransfer { lamports } => {
            let l2 = q->NativeTransfer_lamports;
            assert(b.subrange(4, 12) =~= le_u64(lamports));
            assert(c.subrange(4, 12) =~= le_u64(l2));
            lemma_le_u64_injective(lamports, l2);
        },
        Payload::InitializeMint { decimals, mint_authority, freeze_authority } => {
            let d2 = q->InitializeMint_decimals;
            let m2 = q->mint_authority;
            let f2 = q->freeze_authority;
            assert(b[1] == decimals);
            assert(c[1] == d2);
            assert(b.subrange(2, 34) =~= mint_authority@);
            assert(c.subrange(2, 34) =~= m2@);
            lemma_address_ext(mint_authority, m2);
            match freeze_authority {
                Some(a) => {
                    assert(f2 is Some);
                    let a2 = f2->0;
                    assert(b.subrange(35, 67) =~= a@);
                    assert(c.subrange(35, 67) =~= a2@);
                    lemma_address_ext(a, a2);
                },
                None => {
                    assert(f2 is None);
                },
            }
        },
        Payload::InitializeAccount => {},
        Payload::MintTo { amount } => {
            let a2 = q->MintTo_amount;
            assert(b.subrange(1, 9) =~= le_u64(amount));
            assert(c.subrange(1, 9) =~= le_u64(a2));
            lemma_le_u64_injective(amount, a2);
        },
        Payload::TransferChecked { amount, decimals } => {
            let a2 = q->TransferChecked_amount;
            let d2 = q->TransferChecked_decimals;
            assert(b.subrange(1, 9) =~= le_u64(amount));
            assert(c.subrange(1, 9) =~= le_u64(a2));
            assert(b[9] == decimals);
            assert(c[9] == d2);
            lemma_le_u64_injective(amount, a2);
        },
        Payload::CreateAssociatedAccount => {},
    }
}

/// Round trip: whatever re-reading the bytes of a payload under its own kind
/// may return, it returns that payload.
pub proof fn law_parse_recovers_payload(p: Payload, r: Result<Payload, LedgerError>)
    requires
        parses_to(p.spec_kind(), payload_bytes(p), r),
    ensures
        r == Ok::<Payload, LedgerError>(p),
{
    match r {
        Ok(q) => {
            lemma_payload_bytes_injective(q, p);
        },
        Err(_) => {
            assert(payload_bytes(p) != payload_bytes(p));
        },
    }
}

/// Re-reading never crosses kinds: the result, if any, is of the kind that
/// was asked for, and the only error is an encoding error.
pub proof fn law_parse_respects_kind(
    kind: OperationKind,
    data: Seq<u8>,
    r: Result<Payload, LedgerError>,
)
    requires
        parses_to(kind, data, r),
    ensures
        r is Ok ==> r->Ok_0.spec_kind() == kind,
        r is Err ==> r->Err_0 == LedgerError::Encoding,
{
}

/// The table of discriminators is sound: two kinds that one program reads
/// never share a discriminator, and no payload of one is a payload of the
/// other.
pub proof fn law_kinds_do_not_collide(p: Payload, q: Payload)
    requires
        p.spec_kind().spec_family() == q.spec_kind().spec_family(),
        p.spec_kind() != q.spec_kind(),
    ensures
        discriminator(p.spec_kind()) != discriminator(q.spec_kind()),
        payload_bytes(p) != payload_bytes(q),
{
    lemma_payload_len(p);
    lemma_payload_len(q);
    assert(le_u32(0)[0] == 0u8 && le_u32(2)[0] == 2u8) by {
        assert((0u32 & 0xff) as u8 == 0u8 && (2u32 & 0xff) as u8 == 2u8) by (bit_vector);
    }
    assert(discriminator(p.spec_kind())[0] != discriminator(q.spec_kind())[0]);
    assert(payload_bytes(p)[0] == discriminator(p.spec_kind())[0]);
    assert(payload_bytes(q)[0] == discriminator(q.spec_kind())[0]);
}

} // verus!
