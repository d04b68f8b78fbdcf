use crate::address::{lemma_address_ext, Address};
use crate::programs::{address_of, associated_account_program, ASSOCIATED_ACCOUNT_PROGRAM};
use crate::wire::copy_bytes;
use solana_sdk::pubkey::Pubkey;
use vstd::prelude::*;

verus! {

/// Most seeds a derivation may hash, the bump included.
pub const MAX_SEEDS: usize = 16;

/// Most bytes a single seed may hold.
pub const MAX_SEED_LEN: usize = 32;

/// The address that the ledger's hash assigns to a list of seeds under an
/// owning program, or nothing where the hash lands on the signing curve (such
/// an address could be signed for, so it is no derived address) or the seeds
/// are more or longer than the ledger allows.
pub uninterp spec fn program_address(seeds: Seq<Seq<u8>>, program: Seq<u8>) -> Option<Seq<u8>>;

/// Whether thirty-two bytes are a point of the curve on which the public keys
/// of signing secrets lie: an address with such bytes may have a private key.
pub uninterp spec fn on_signing_curve(bytes: Seq<u8>) -> bool;

/// The two kinds of address.
#[derive(Clone, Copy, Debug, PartialEq, Eq, Structural)]
pub enum AddressKind {
    /// On the signing curve: a private key may exist for it.
    SigningCapable,
    /// Off the signing curve: nobody can sign for it; only an owning program
    /// can authorize writes to it.
    Unsignable,
}

/// A derived address and the bump that made it land off the signing curve.
#[derive(Clone, Copy, Debug, PartialEq, Eq)]
pub struct DerivedAddress {
    pub address: Address,
    pub bump: u8,
}

/// Why a derivation gave no address.
#[derive(Clone, Copy, Debug, PartialEq, Eq, Structural)]
pub enum DeriveError {
    /// Too many seeds, or a seed that is too long.
    SeedsOutOfRange,
    /// Every bump from 255 down to 1 gave a signable address.
    NoViableBump,
}

/// The byte sequences that a list of seeds holds.
pub open spec fn seed_views(seeds: Seq<Vec<u8>>) -> Seq<Seq<u8>> {
    seeds.map_values(|s: Vec<u8>| s@)
}

/// Whether the seeds leave room for a bump and none is too long.
pub open spec fn seeds_in_range(seeds: Seq<Seq<u8>>) -> bool {
    &&& seeds.len() < MAX_SEEDS
    &&& forall|i: int| 0 <= i < seeds.len() ==> (#[trigger] seeds[i]).len() <= MAX_SEED_LEN
}

/// The candidate address for one bump: the seeds, then the bump as a last
/// one-byte seed, hashed under the owning program.
pub open spec fn candidate(seeds: Seq<Seq<u8>>, program: Address, bump: u8) -> Option<Seq<u8>> {
    program_address(seeds.push(seq![bump]), program@)
}

/// What a derivation must return: the candidate of the greatest bump in
/// 1..=255 that has one, with that bump; it is off the signing curve. The
/// search never tries bump 0, as the ledger's own does not.
pub open spec fn derives_to(
    seeds: Seq<Seq<u8>>,
    program: Address,
    r: Result<DerivedAddress, DeriveError>,
) -> bool {
    match r {
        Ok(d) => {
            &&& seeds_in_range(seeds)
            &&& d.bump >= 1
            &&& candidate(seeds, program, d.bump) == Some(d.address@)
            &&& !on_signing_curve(d.address@)
            &&& forall|b: u8| d.bump < b ==> candidate(seeds, program, b) is None
        },
        Err(DeriveError::SeedsOutOfRange) => !seeds_in_range(seeds),
        Err(DeriveError::NoViableBump) => {
            &&& seeds_in_range(seeds)
            &&& forall|b: u8| 1 <= b ==> candidate(seeds, program, b) is None
        },
    }
}

/// Calls `Pubkey::create_program_address` of `solana_sdk`, which hashes the
/// seeds, the program id and a fixed marker with SHA-256 and refuses the
/// result when it is a point of the signing curve or when the seeds exceed
/// the ledger's limits. The contract gives that outcome its name, and states
/// the one fact the source shows of an address that is returned: it was
/// tested with the curve test that `Pubkey::is_on_curve` runs, and is off
/// the curve.
#[verifier::external_body]
fn try_program_address(seeds: &Vec<Vec<u8>>, program: &Address) -> (r: Option<Address>)
    ensures
        r is Some ==> program_address(seed_views(seeds@), program@) == Some(r->0@),
        r is Some ==> !on_signing_curve(r->0@),
        r is None ==> program_address(seed_views(seeds@), program@) is None,
{
    let parts: Vec<&[u8]> = seeds.iter().map(|s| s.as_slice()).collect();
    let owner = Pubkey::new_from_array(program.bytes);
    Pubkey::create_program_address(&parts, &owner).ok().map(|key| Address { bytes: key.to_bytes() })
}

/// Calls `Pubkey::is_on_curve` of `solana_sdk`, which tells whether the bytes
/// decompress to a point of the Ed25519 curve. The contract only gives that
/// answer its name.
#[verifier::external_body]
fn curve_point(a: &Address) -> (r: bool)
    ensures
        r == on_signing_curve(a@),
{
    Pubkey::new_from_array(a.bytes).is_on_curve()
}

impl AddressKind {
    /// The kind that the curve test decides: on the curve is signing-capable.
    pub open spec fn spec_from_curve_test(on_curve: bool) -> AddressKind {
        if on_curve {
            AddressKind::SigningCapable
        } else {
            AddressKind::Unsignable
        }
    }

    #[verifier::when_used_as_spec(spec_from_curve_test)]
    pub fn from_curve_test(on_curve: bool) -> (k: AddressKind)
        ensures
            k == AddressKind::spec_from_curve_test(on_curve),
    {
        if on_curve {
            AddressKind::SigningCapable
        } else {
            AddressKind::Unsignable
        }
    }
}

/// Tells the two kinds of address apart.
pub fn kind_of(a: &Address) -> (k: AddressKind)
    ensures
        k == AddressKind::spec_from_curve_test(on_signing_curve(a@)),
{
    AddressKind::from_curve_test(curve_point(a))
}

/// How a search goes on after one candidate.
#[derive(Clone, Copy, Debug, PartialEq, Eq)]
pub enum Search {
    /// The candidate stands: the search ends with it.
    Found(DerivedAddress),
    /// The candidate fell on the curve: try the given bump next.
    Continue(u8),
    /// The candidate fell on the curve and no bump is left.
    Exhausted,
}

/// The step that follows the outcome of the candidate for `bump`.
pub open spec fn spec_after_candidate(bump: u8, outcome: Option<Address>) -> Search {
    match outcome {
        Some(address) => Search::Found(DerivedAddress { address, bump }),
        None => if bump <= 1 {
            Search::Exhausted
        } else {
            Search::Continue((bump - 1) as u8)
        },
    }
}

/// Decides how the search goes on after the candidate for `bump`: a
/// candidate that stands is taken, else the next lower bump is tried, down
/// to 1.
#[verifier::when_used_as_spec(spec_after_candidate)]
pub fn after_candidate(bump: u8, outcome: Option<Address>) -> (s: Search)
    ensures
        s == spec_after_candidate(bump, outcome),
{
    match outcome {
        Some(address) => Search::Found(DerivedAddress { address, bump }),
        None => {
            if bump <= 1 {
                Search::Exhausted
            } else {
                Search::Continue(bump - 1)
            }
        },
    }
}

/// Whether the seeds leave room for a bump and none is too long.
pub fn check_seeds(seeds: &Vec<Vec<u8>>) -> (ok: bool)
    ensures
        ok == seeds_in_range(seed_views(seeds@)),
{
    if seeds.len() >= MAX_SEEDS {
        return false;
    }
    let mut i: usize = 0;
    while i < seeds.len()
        invariant
            i <= seeds.len(),
            forall|k: int| 0 <= k < i ==> (#[trigger] seed_views(seeds@)[k]).len() <= MAX_SEED_LEN,
        decreases seeds.len() - i,
    {
        if seeds[i].len() > MAX_SEED_LEN {
            assert(seed_views(seeds@)[i as int].len() > MAX_SEED_LEN);
            return false;
        }
        i = i + 1;
    }
    true
}

/// Derives the address that `program` owns for `seeds`.
///
/// Bumps are tried from 255 downwards and the first candidate that is off
/// the signing curve is returned, so every caller with the same seeds and
/// program arrives at the same address.
pub fn derive(seeds: &Vec<Vec<u8>>, program: &Address) -> (r: Result<DerivedAddress, DeriveError>)
    ensures
        derives_to(seed_views(seeds@), *program, r),
{
    if !check_seeds(seeds) {
        return Err(DeriveError::SeedsOutOfRange);
    }
    let ghost base = seed_views(seeds@);
    let n = seeds.len();
    let mut with_bump: Vec<Vec<u8>> = Vec::new();
    let mut i: usize = 0;
    while i < n
        invariant
            i <= n,
            n == seeds.len(),
            with_bump.len() == i,
            seed_views(with_bump@) == base.subrange(0, i as int),
            base == seed_views(seeds@),
        decreases n - i,
    {
        let seed = copy_bytes(&seeds[i]);
        with_bump.push(seed);
        assert(seed_views(with_bump@) =~= base.subrange(0, i + 1));
        i = i + 1;
    }
    assert(base.subrange(0, n as int) == base);
    with_bump.push(Vec::new());
    let mut bump: u8 = 255;
    loop
        invariant
            bump >= 1,
            n == seeds.len(),
            with_bump.len() == n + 1,
            base == seed_views(seeds@),
            seeds_in_range(base),
            seed_views(with_bump@).subrange(0, n as int) == base,
            forall|b: u8| bump < b ==> candidate(base, *program, b) is None,
        decreases bump,
    {
        let mut last: Vec<u8> = Vec::new();
        last.push(bump);
        with_bump.set(n, last);
        proof {
            let sv = seed_views(with_bump@);
            assert(sv.subrange(0, n as int) == base) by {
                assert(sv.subrange(0, n as int) =~= base);
            }
            assert(sv[n as int] =~= seq![bump]);
            assert(sv =~= base.push(seq![bump]));
        }
        match after_candidate(bump, try_program_address(&with_bump, program)) {
            Search::Found(d) => {
                return Ok(d);
            },
            Search::Continue(next) => {
                bump = next;
            },
            Search::Exhausted => {
                return Err(DeriveError::NoViableBump);
            },
        }
    }
}

/// The seeds of an associated holding account: holder, token program, asset.
pub open spec fn associated_seeds(holder: Address, asset: Address, token_program: Address) -> Seq<
    Seq<u8>,
> {
    seq![holder@, token_program@, asset@]
}

/// What deriving the associated holding address of a holder and an asset
/// must return: the derivation of their seeds under the associated-account
/// program.
pub open spec fn associated_derives_to(
    holder: Address,
    asset: Address,
    token_program: Address,
    r: Result<DerivedAddress, DeriveError>,
) -> bool {
    derives_to(
        associated_seeds(holder, asset, token_program),
        address_of(ASSOCIATED_ACCOUNT_PROGRAM),
        r,
    )
}

/// Derives the one holding account that belongs to a holder and an asset
/// under a token program. Addresses are always in range as seeds, so the
/// only failure is a search that finds no bump.
pub fn associated_holding_address(holder: &Address, asset: &Address, token_program: &Address) -> (r:
    Result<DerivedAddress, DeriveError>)
    ensures
        associated_derives_to(*holder, *asset, *token_program, r),
        r != Err::<DerivedAddress, DeriveError>(DeriveError::SeedsOutOfRange),
{
    let mut seeds: Vec<Vec<u8>> = Vec::new();
    seeds.push(holder.to_vec());
    seeds.push(token_program.to_vec());
    seeds.push(asset.to_vec());
    let owner = associated_account_program();
    proof {
        assert(seed_views(seeds@) =~= associated_seeds(*holder, *asset, *token_program));
        assert(seeds_in_range(seed_views(seeds@)));
    }
    derive(&seeds, &owner)
}

/// Derivation is a function of its inputs: two results that both meet the
/// contract of `derive` for the same seeds and program are equal.
pub proof fn law_derive_deterministic(
    seeds: Seq<Seq<u8>>,
    program: Address,
    first: Result<DerivedAddress, DeriveError>,
    second: Result<DerivedAddress, DeriveError>,
)
    requires
        derives_to(seeds, program, first),
        derives_to(seeds, program, second),
    ensures
        first == second,
{
    match (first, second) {
        (Ok(d), Ok(e)) => {
            if d.bump < e.bump {
                assert(candidate(seeds, program, e.bump) is None);
            }
            if e.bump < d.bump {
                assert(candidate(seeds, program, d.bump) is None);
            }
            lemma_address_ext(d.address, e.address);
        },
        (Ok(d), Err(_)) => {
            assert(candidate(seeds, program, d.bump) is None);
        },
        (Err(_), Ok(e)) => {
            assert(candidate(seeds, program, e.bump) is None);
        },
        (Err(_), Err(_)) => {},
    }
}

/// A derived address can be checked without searching: its bump alone
/// reproduces it.
pub proof fn law_bump_reproduces_address(seeds: Seq<Seq<u8>>, program: Address, d: DerivedAddress)
    requires
        derives_to(seeds, program, Ok(d)),
    ensures
        program_address(seeds.push(seq![d.bump]), program@) == Some(d.address@),
{
}

/// A derived address is unsignable: whatever derivation returns is off the
/// signing curve, so that no private key exists for it.
pub proof fn law_derived_address_is_unsignable(
    seeds: Seq<Seq<u8>>,
    program: Address,
    d: DerivedAddress,
)
    requires
        derives_to(seeds, program, Ok(d)),
    ensures
        !on_signing_curve(d.address@),
{
}

} // verus!
