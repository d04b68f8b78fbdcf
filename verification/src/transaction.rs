use crate::address::Address;
use crate::error::LedgerError;
use crate::instruction::{views, Instruction, InstructionView};
use crate::signers::{
    lemma_listed_set, lists_exactly, must_sign, referenced, referenced_addresses,
    required_signer_addresses, required_signers,
};
use solana_sdk::instruction::AccountMeta as SdkMeta;
use solana_sdk::instruction::Instruction as SdkInstruction;
use solana_sdk::message::Message;
use solana_sdk::signer::keypair::Keypair;
use solana_sdk::signer::Signer;
use vstd::prelude::*;

verus! {

/// Most addresses a transaction may name: each is referred to by one byte.
pub const MAX_REFERENCED: usize = 256;

/// Most signatures a transaction may carry: their number is stored in one byte.
pub const MAX_SIGNERS: usize = 255;

/// Most items a list inside a message may hold: its length is stored in sixteen bits.
pub const MAX_LIST_LEN: usize = 65535;

/// The public address that belongs to a 32-byte signing secret.
pub uninterp spec fn public_key_of(secret: Seq<u8>) -> Seq<u8>;

/// The signature that a signing secret gives to a message.
pub uninterp spec fn signature_of(secret: Seq<u8>, message: Seq<u8>) -> Seq<u8>;

/// The ledger's canonical bytes for the message made of a list of
/// instructions, the fee payer and the hash of the freshness token.
pub uninterp spec fn message_bytes(
    instructions: Seq<InstructionView>,
    payer: Seq<u8>,
    hash: Seq<u8>,
) -> Seq<u8>;

/// The addresses that must sign a message, in the order in which the message
/// lists them and in which their signatures must stand.
pub uninterp spec fn message_signers(instructions: Seq<InstructionView>, payer: Seq<u8>) -> Seq<
    Address,
>;

/// A reference to a recent ledger state: its hash, and the last block height
/// at which the ledger still accepts a transaction bound to it.
#[derive(Clone, Copy, Debug, PartialEq, Eq)]
pub struct FreshnessToken {
    pub hash: [u8; 32],
    pub last_valid_height: u64,
}

/// A signature over a message.
#[derive(Clone, Copy, Debug, PartialEq, Eq)]
pub struct Signature {
    pub bytes: [u8; 64],
}

impl View for Signature {
    type V = Seq<u8>;

    open spec fn view(&self) -> Seq<u8> {
        self.bytes@
    }
}

/// A signing secret held in memory together with the address it signs for.
/// It cannot be printed or copied.
pub struct SigningKey {
    secret: [u8; 32],
    address: Address,
}

impl SigningKey {
    #[verifier::type_invariant]
    spec fn well_formed(self) -> bool {
        self.address@ == public_key_of(self.secret@)
    }

    /// The address the key signs for.
    pub closed spec fn spec_address(&self) -> Address {
        self.address
    }

    /// The secret bytes of the key.
    pub closed spec fn spec_secret(&self) -> Seq<u8> {
        self.secret@
    }

    /// Makes a key from its secret; the address is computed from it.
    pub fn from_secret(secret: [u8; 32]) -> (k: SigningKey)
        ensures
            k.spec_secret() == secret@,
            k.spec_address()@ == public_key_of(secret@),
    {
        let address = public_key(&secret);
        SigningKey { secret, address }
    }

    /// The address the key signs for.
    #[verifier::when_used_as_spec(spec_address)]
    pub fn address(&self) -> (a: Address)
        ensures
            a == self.spec_address(),
            a@ == public_key_of(self.spec_secret()),
    {
        proof {
            use_type_invariant(self);
        }
        self.address
    }

    /// Signs a message.
    pub fn sign(&self, message: &Vec<u8>) -> (s: Signature)
        ensures
            s@ == signature_of(self.spec_secret(), message@),
    {
        sign_bytes(&self.secret, message)
    }
}

/// Calls `Keypair::new_from_array` and `Signer::pubkey` of `solana_sdk`,
/// which compute the Ed25519 public key of a secret. The contract only
/// gives that key its name.
#[verifier::external_body]
fn public_key(secret: &[u8; 32]) -> (a: Address)
    ensures
        a@ == public_key_of(secret@),
{
    Address { bytes: Keypair::new_from_array(*secret).pubkey().to_bytes() }
}

/// Calls `Signer::sign_message` of `solana_sdk` on the keypair of a secret,
/// which computes the Ed25519 signature of the message; that signature
/// depends on secret and message alone. The contract only gives it its name.
#[verifier::external_body]
fn sign_bytes(secret: &[u8; 32], message: &Vec<u8>) -> (s: Signature)
    ensures
        s@ == signature_of(secret@, message@),
{
    Signature { bytes: Keypair::new_from_array(*secret).sign_message(message).into() }
}

/// A compiled message: its canonical bytes and the addresses that must sign
/// them, in signature order.
pub struct CompiledMessage {
    pub signer_keys: Vec<Address>,
    pub bytes: Vec<u8>,
}

/// Whether the lists of a transaction are short enough for their lengths to
/// be written: the instructions, and each instruction's accounts and payload.
pub open spec fn lists_fit(ixs: Seq<InstructionView>) -> bool {
    &&& ixs.len() <= MAX_LIST_LEN
    &&& forall|i: int|
        0 <= i < ixs.len() ==> (#[trigger] ixs[i]).accounts.len() <= MAX_LIST_LEN
            && ixs[i].data.len() <= MAX_LIST_LEN
}

/// Whether a transaction stays within what the message format can express:
/// sixteen-bit list lengths, one-byte account indices and a one-byte
/// signature count.
pub open spec fn compilable(ixs: Seq<InstructionView>, payer: Address) -> bool {
    &&& lists_fit(ixs)
    &&& referenced(ixs, payer).finite()
    &&& referenced(ixs, payer).len() <= MAX_REFERENCED
    &&& required_signers(ixs, payer).finite()
    &&& required_signers(ixs, payer).len() <= MAX_SIGNERS
}

/// Whether the lists of a transaction are short enough for their lengths to be written.
pub fn check_lists_fit(instructions: &Vec<Instruction>) -> (ok: bool)
    ensures
        ok == lists_fit(views(instructions@)),
{
    if instructions.len() > MAX_LIST_LEN {
        return false;
    }
    let ghost ixs = views(instructions@);
    let mut i: usize = 0;
    while i < instructions.len()
        invariant
            i <= instructions.len(),
            ixs == views(instructions@),
            forall|k: int|
                0 <= k < i ==> (#[trigger] ixs[k]).accounts.len() <= MAX_LIST_LEN
                    && ixs[k].data.len() <= MAX_LIST_LEN,
        decreases instructions.len() - i,
    {
        if instructions[i].accounts.len() > MAX_LIST_LEN || instructions[i].data.len()
            > MAX_LIST_LEN {
            assert(ixs[i as int] == instructions@[i as int]@);
            assert(!(ixs[i as int].accounts.len() <= MAX_LIST_LEN && ixs[i as int].data.len()
                <= MAX_LIST_LEN));
            return false;
        }
        assert(ixs[i as int] == instructions@[i as int]@);
        i = i + 1;
    }
    true
}

/// Calls `Message::new_with_blockhash` of `solana_sdk` and takes from the
/// message it returns its serialized bytes (`Message::serialize`) and its
/// signing addresses (`Message::signer_keys`). These functions panic, or
/// index accounts wrongly, where the addresses or signers do not fit in a
/// byte or a list is longer than sixteen bits can tell; `requires` leaves
/// those inputs out. The contract names the bytes and the list of signing
/// addresses, and states of that list what the message compiler's source
/// shows: the payer stands first, no address stands twice, and the members
/// are the payer and every address that some instruction lists as a signer.
#[verifier::external_body]
#[allow(deprecated)]
fn compile_message(instructions: &Vec<Instruction>, payer: &Address, hash: &[u8; 32]) -> (m:
    CompiledMessage)
    requires
        compilable(views(instructions@), *payer),
    ensures
        m.bytes@ == message_bytes(views(instructions@), payer@, hash@),
        m.signer_keys@ == message_signers(views(instructions@), payer@),
        m.signer_keys@.len() >= 1,
        m.signer_keys@[0] == *payer,
        lists_exactly(m.signer_keys@, required_signers(views(instructions@), *payer)),
{
    let lowered: Vec<SdkInstruction> = instructions.iter().map(|ix| SdkInstruction {
        program_id: ix.program_id.bytes.into(),
        accounts: ix.accounts.iter().map(|m| SdkMeta { pubkey: m.address.bytes.into(), is_signer: m.is_signer, is_writable: m.is_writable }).collect(),
        data: ix.data.clone(),
    }).collect();
    let message = Message::new_with_blockhash(&lowered, Some(&payer.bytes.into()), &solana_sdk::hash::Hash::new_from_array(*hash));
    let signer_keys = message.signer_keys().iter().map(|k| Address { bytes: k.to_bytes() }).collect();
    CompiledMessage { signer_keys, bytes: message.serialize() }
}

/// A transaction ready to be submitted: the message bytes, the addresses
/// that signed them, and one signature for each, in the same order.
#[derive(Clone, Debug, PartialEq, Eq)]
pub struct SignedTransaction {
    pub signer_keys: Vec<Address>,
    pub signatures: Vec<Signature>,
    pub message: Vec<u8>,
    pub token: FreshnessToken,
}

/// Whether some key among `keys` signs for `a`.
pub open spec fn has_key(keys: Seq<SigningKey>, a: Address) -> bool {
    exists|i: int| 0 <= i < keys.len() && (#[trigger] keys[i]).spec_address() == a
}

/// Whether `i` is the first place among `keys` of a key that signs for `a`.
pub open spec fn is_first_key(keys: Seq<SigningKey>, a: Address, i: int) -> bool {
    &&& 0 <= i < keys.len()
    &&& keys[i].spec_address() == a
    &&& forall|j: int| 0 <= j < i ==> (#[trigger] keys[j]).spec_address() != a
}

/// Whether the signature at place `i` is that of the first offered key that
/// signs for the address at place `i`.
pub open spec fn signed_at(
    keys: Seq<SigningKey>,
    signer_keys: Seq<Address>,
    signatures: Seq<Signature>,
    message: Seq<u8>,
    i: int,
) -> bool {
    exists|k: int| #[trigger]
        is_first_key(keys, signer_keys[i], k) && signatures[i]@ == signature_of(
            keys[k].spec_secret(),
            message,
        )
}

/// Whether `tx` is the signed form of the given transaction: its message is
/// the canonical one, its signers are the message's, and each signature is
/// that of the first offered key that signs for the address at its place.
pub open spec fn signed_form(
    ixs: Seq<InstructionView>,
    payer: Address,
    token: FreshnessToken,
    keys: Seq<SigningKey>,
    tx: SignedTransaction,
) -> bool {
    &&& tx.token == token
    &&& tx.message@ == message_bytes(ixs, payer@, token.hash@)
    &&& tx.signer_keys@ == message_signers(ixs, payer@)
    &&& tx.signer_keys@.len() >= 1
    &&& tx.signer_keys@[0] == payer
    &&& lists_exactly(tx.signer_keys@, required_signers(ixs, payer))
    &&& tx.signatures@.len() == tx.signer_keys@.len()
    &&& forall|i: int|
        0 <= i < tx.signer_keys@.len() ==> #[trigger] signed_at(
            keys,
            tx.signer_keys@,
            tx.signatures@,
            tx.message@,
            i,
        )
}

/// What assembling must return.
///
/// A transaction without instructions, or one whose lists, addresses or
/// signatures are more than the message format can express, is refused as an
/// encoding error. Else a
/// required signer without a key among those offered is a missing signer.
/// Else the result is the signed form.
pub open spec fn assembles_to(
    ixs: Seq<InstructionView>,
    payer: Address,
    token: FreshnessToken,
    keys: Seq<SigningKey>,
    r: Result<SignedTransaction, LedgerError>,
) -> bool {
    if ixs.len() == 0 || !compilable(ixs, payer) {
        r == Err::<SignedTransaction, LedgerError>(LedgerError::Encoding)
    } else if exists|a: Address| must_sign(ixs, payer, a) && !has_key(keys, a) {
        r == Err::<SignedTransaction, LedgerError>(LedgerError::MissingSigner)
    } else {
        r is Ok && signed_form(ixs, payer, token, keys, r->Ok_0)
    }
}

/// The first key among `keys` that signs for `a`.
pub fn find_key(keys: &Vec<SigningKey>, a: &Address) -> (r: Option<usize>)
    ensures
        match r {
            Some(i) => is_first_key(keys@, *a, i as int),
            None => !has_key(keys@, *a),
        },
{
    let mut i: usize = 0;
    while i < keys.len()
        invariant
            i <= keys.len(),
            forall|j: int| 0 <= j < i ==> (#[trigger] keys@[j]).spec_address() != *a,
        decreases keys.len() - i,
    {
        let candidate = keys[i].address();
        if candidate.same_as(a) {
            return Some(i);
        }
        i = i + 1;
    }
    None
}

/// What collecting signatures must return: one signature for each signing
/// address, in order, each from the first offered key that signs for it; or
/// a missing signer where some signing address has no key.
pub open spec fn collects_to(
    signer_keys: Seq<Address>,
    message: Seq<u8>,
    keys: Seq<SigningKey>,
    r: Result<Vec<Signature>, LedgerError>,
) -> bool {
    if exists|i: int| 0 <= i < signer_keys.len() && !has_key(keys, #[trigger] signer_keys[i]) {
        r == Err::<Vec<Signature>, LedgerError>(LedgerError::MissingSigner)
    } else {
        &&& r is Ok
        &&& r->Ok_0@.len() == signer_keys.len()
        &&& forall|i: int|
            0 <= i < signer_keys.len() ==> #[trigger] signed_at(
                keys,
                signer_keys,
                r->Ok_0@,
                message,
                i,
            )
    }
}

/// Signs `message` once for each address of `signer_keys`, with the first
/// offered key that signs for it.
pub fn collect_signatures(signer_keys: &Vec<Address>, message: &Vec<u8>, keys: &Vec<SigningKey>) -> (r:
    Result<Vec<Signature>, LedgerError>)
    ensures
        collects_to(signer_keys@, message@, keys@, r),
{
    let mut signatures: Vec<Signature> = Vec::new();
    let mut i: usize = 0;
    while i < signer_keys.len()
        invariant
            i <= signer_keys.len(),
            signatures@.len() == i,
            forall|n: int| 0 <= n < i ==> has_key(keys@, #[trigger] signer_keys@[n]),
            forall|n: int|
                0 <= n < i ==> #[trigger] signed_at(keys@, signer_keys@, signatures@, message@, n),
        decreases signer_keys.len() - i,
    {
        match find_key(keys, &signer_keys[i]) {
            Some(k) => {
                let s = keys[k].sign(message);
                let ghost before = signatures@;
                signatures.push(s);
                proof {
                    assert(has_key(keys@, signer_keys@[i as int])) by {
                        assert(keys@[k as int].spec_address() == signer_keys@[i as int]);
                    }
                    assert forall|n: int| 0 <= n < i + 1 implies #[trigger] signed_at(
                        keys@,
                        signer_keys@,
                        signatures@,
                        message@,
                        n,
                    ) by {
                        if n < i {
                            assert(signed_at(keys@, signer_keys@, before, message@, n));
                            let w = choose|w: int| #[trigger]
                                is_first_key(keys@, signer_keys@[n], w) && before[n]@
                                    == signature_of(keys@[w].spec_secret(), message@);
                            assert(signatures@[n] == before[n]);
                            assert(is_first_key(keys@, signer_keys@[n], w));
                        } else {
                            assert(is_first_key(keys@, signer_keys@[n], k as int));
                        }
                    }
                }
            },
            None => {
                return Err(LedgerError::MissingSigner);
            },
        }
        i = i + 1;
    }
    Ok(signatures)
}

/// Orders the instructions into one message bound to the freshness token,
/// and signs it once for each required signer.
///
/// The keys may be offered in any order and may hold more than are needed.
pub fn assemble(
    instructions: &Vec<Instruction>,
    fee_payer: &Address,
    token: &FreshnessToken,
    keys: &Vec<SigningKey>,
) -> (r: Result<SignedTransaction, LedgerError>)
    ensures
        assembles_to(views(instructions@), *fee_payer, *token, keys@, r),
{
    let ghost ixs = views(instructions@);
    if instructions.len() == 0 || !check_lists_fit(instructions) {
        return Err(LedgerError::Encoding);
    }
    let named = referenced_addresses(instructions, fee_payer);
    let needed = required_signer_addresses(instructions, fee_payer);
    proof {
        lemma_listed_set(named@, referenced(ixs, *fee_payer));
        lemma_listed_set(needed@, required_signers(ixs, *fee_payer));
    }
    if named.len() > MAX_REFERENCED || needed.len() > MAX_SIGNERS {
        return Err(LedgerError::Encoding);
    }
    let compiled = compile_message(instructions, fee_payer, &token.hash);
    let CompiledMessage { signer_keys, bytes } = compiled;
    let signatures = match collect_signatures(&signer_keys, &bytes, keys) {
        Ok(signatures) => signatures,
        Err(e) => {
            proof {
                let i = choose|i: int|
                    0 <= i < signer_keys@.len() && !has_key(keys@, #[trigger] signer_keys@[i]);
                let a = signer_keys@[i];
                assert(signer_keys@.contains(a));
                assert(required_signers(ixs, *fee_payer).contains(a));
                assert(must_sign(ixs, *fee_payer, a) && !has_key(keys@, a));
            }
            return Err(e);
        },
    };
    let tx = SignedTransaction { signer_keys, signatures, message: bytes, token: *token };
    proof {
        assert forall|a: Address| must_sign(ixs, *fee_payer, a) implies has_key(keys@, a) by {
            assert(required_signers(ixs, *fee_payer).contains(a));
            assert(tx.signer_keys@.contains(a));
            let n = choose|n: int| 0 <= n < tx.signer_keys@.len() && tx.signer_keys@[n] == a;
            assert(has_key(keys@, tx.signer_keys@[n]));
        }
        assert(signed_form(ixs, *fee_payer, *token, keys@, tx));
    }
    Ok(tx)
}

/// A transaction whose instructions need the signatures of two addresses
/// cannot be assembled from the key of one: whenever some required signer
/// has no key among those offered, assembly of a well-sized transaction
/// fails with a missing signer.
pub proof fn law_missing_signer_is_refused(
    ixs: Seq<InstructionView>,
    payer: Address,
    token: FreshnessToken,
    keys: Seq<SigningKey>,
    absent: Address,
    r: Result<SignedTransaction, LedgerError>,
)
    requires
        assembles_to(ixs, payer, token, keys, r),
        ixs.len() > 0,
        compilable(ixs, payer),
        must_sign(ixs, payer, absent),
        !has_key(keys, absent),
    ensures
        r == Err::<SignedTransaction, LedgerError>(LedgerError::MissingSigner),
{
}

/// An assembled transaction carries one signature for each distinct required
/// signer, the fee payer's first.
pub proof fn law_one_signature_per_signer(
    ixs: Seq<InstructionView>,
    payer: Address,
    token: FreshnessToken,
    keys: Seq<SigningKey>,
    tx: SignedTransaction,
)
    requires
        assembles_to(ixs, payer, token, keys, Ok(tx)),
    ensures
        required_signers(ixs, payer).finite(),
        tx.signatures@.len() == required_signers(ixs, payer).len(),
        tx.signer_keys@[0] == payer,
        tx.signer_keys@.no_duplicates(),
{
    lemma_listed_set(tx.signer_keys@, required_signers(ixs, payer));
}

} // verus!
