//! Addresses, and the derivation of program addresses from seeds.

use vstd::prelude::*;

verus! {

/// A 32-byte account address.
pub type Pubkey = [u8; 32];

/// Why no address could be derived.
#[derive(Debug, Clone, Copy, PartialEq, Eq, Structural)]
pub enum PubkeyError {
    /// Too many seeds, or one of them too long.
    MaxSeedLengthExceeded,
    /// The seeds lead to a point on the curve, which is no program address.
    InvalidSeeds,
    IllegalOwner,
}

/// What the ledger's derivation gives for `seeds` under `program_id`: the
/// address, or why there is none.
pub uninterp spec fn program_address(seeds: Seq<Seq<u8>>, program_id: Seq<u8>) -> Result<
    Seq<u8>,
    PubkeyError,
>;

/// `seeds` followed by the one-byte seed `bump`.
pub open spec fn with_bump(seeds: Seq<Seq<u8>>, bump: u8) -> Seq<Seq<u8>> {
    seeds.push(seq![bump])
}

/// Whether `bump` is the canonical bump of `seeds`, and `address` the address
/// it leads to: the largest bump from 255 down to 1 for which the derivation
/// succeeds, every larger one having led to a point on the curve.
pub open spec fn is_canonical(
    seeds: Seq<Seq<u8>>,
    program_id: Seq<u8>,
    address: Seq<u8>,
    bump: u8,
) -> bool {
    &&& bump >= 1
    &&& program_address(with_bump(seeds, bump), program_id) == Ok::<
        Seq<u8>,
        PubkeyError,
    >(address)
    &&& forall|b: u8|
        bump < b ==> #[trigger] program_address(with_bump(seeds, b), program_id)
            == Err::<Seq<u8>, PubkeyError>(PubkeyError::InvalidSeeds)
}

/// Whether `seeds` have a canonical bump at all.
pub open spec fn has_canonical(seeds: Seq<Seq<u8>>, program_id: Seq<u8>) -> bool {
    exists|address: Seq<u8>, bump: u8| is_canonical(seeds, program_id, address, bump)
}

/// Seeds have at most one canonical bump, and it leads to one address.
pub proof fn lemma_canonical_unique(
    seeds: Seq<Seq<u8>>,
    program_id: Seq<u8>,
    address1: Seq<u8>,
    bump1: u8,
    address2: Seq<u8>,
    bump2: u8,
)
    requires
        is_canonical(seeds, program_id, address1, bump1),
        is_canonical(seeds, program_id, address2, bump2),
    ensures
        address1 == address2,
        bump1 == bump2,
{
    if bump1 < bump2 {
        assert(program_address(with_bump(seeds, bump2), program_id) is Err);
    }
    if bump2 < bump1 {
        assert(program_address(with_bump(seeds, bump1), program_id) is Err);
    }
}

/// Derives the program address of `seeds` under `program_id`.
///
/// Calls `solana_sdk::pubkey::Pubkey::create_program_address`. Trusted: the
/// outcome, an address or a refusal, depends on the seeds and the program id
/// alone; it is given the name `program_address`.
#[verifier::external_body]
pub(crate) fn create_program_address(seeds: &[&[u8]], program_id: &Pubkey) -> (r: Result<
    Pubkey,
    PubkeyError,
>)
    ensures
        match r {
            Ok(address) => program_address(seeds.deep_view(), program_id@) == Ok::<
                Seq<u8>,
                PubkeyError,
            >(address@),
            Err(e) => program_address(seeds.deep_view(), program_id@) == Err::<
                Seq<u8>,
                PubkeyError,
            >(e),
        },
{
    let program = solana_sdk::pubkey::Pubkey::new_from_array(*program_id);
    match solana_sdk::pubkey::Pubkey::create_program_address(seeds, &program) {
        Ok(address) => Ok(address.to_bytes()),
        Err(solana_sdk::pubkey::PubkeyError::MaxSeedLengthExceeded) => Err(
            PubkeyError::MaxSeedLengthExceeded,
        ),
        Err(solana_sdk::pubkey::PubkeyError::InvalidSeeds) => Err(PubkeyError::InvalidSeeds),
        Err(solana_sdk::pubkey::PubkeyError::IllegalOwner) => Err(PubkeyError::IllegalOwner),
    }
}

/// Searches the canonical bump of `seeds` under `program_id`.
///
/// Calls `solana_sdk::pubkey::Pubkey::try_find_program_address`. Trusted: the
/// call tries the bumps from 255 down to 1 with `create_program_address`,
/// goes on while the outcome is `InvalidSeeds`, returns the first address it
/// gets together with its bump, and gives up on any other failure or when no
/// bump is left.
#[verifier::external_body]
pub(crate) fn try_find_program_address(seeds: &[&[u8]], program_id: &Pubkey) -> (r: Option<
    (Pubkey, u8),
>)
    ensures
        match r {
            Some((address, bump)) => is_canonical(
                seeds.deep_view(),
                program_id@,
                address@,
                bump,
            ),
            None => !has_canonical(seeds.deep_view(), program_id@),
        },
{
    let program = solana_sdk::pubkey::Pubkey::new_from_array(*program_id);
    match solana_sdk::pubkey::Pubkey::try_find_program_address(seeds, &program) {
        Some((address, bump)) => Some((address.to_bytes(), bump)),
        None => None,
    }
}

/// The canonical bump of `seeds` and the address it leads to, if there is
/// one.
pub open spec fn canonical_address(seeds: Seq<Seq<u8>>, program_id: Seq<u8>) -> Option<
    (Seq<u8>, u8),
> {
    if has_canonical(seeds, program_id) {
        Some(choose|found: (Seq<u8>, u8)| is_canonical(seeds, program_id, found.0, found.1))
    } else {
        None
    }
}

/// A canonical bump, once known, is what `canonical_address` gives.
pub proof fn lemma_canonical_address(
    seeds: Seq<Seq<u8>>,
    program_id: Seq<u8>,
    address: Seq<u8>,
    bump: u8,
)
    requires
        is_canonical(seeds, program_id, address, bump),
    ensures
        canonical_address(seeds, program_id) == Some((address, bump)),
{
    assert(has_canonical(seeds, program_id));
    let witness = (address, bump);
    assert(is_canonical(seeds, program_id, witness.0, witness.1));
    let found = choose|found: (Seq<u8>, u8)| is_canonical(seeds, program_id, found.0, found.1);
    lemma_canonical_unique(seeds, program_id, found.0, found.1, address, bump);
}

/// What `canonical_address` gives is a canonical bump and its address.
pub proof fn lemma_canonical_address_is_canonical(seeds: Seq<Seq<u8>>, program_id: Seq<u8>)
    requires
        canonical_address(seeds, program_id) is Some,
    ensures
        is_canonical(
            seeds,
            program_id,
            canonical_address(seeds, program_id)->Some_0.0,
            canonical_address(seeds, program_id)->Some_0.1,
        ),
{
    let pair = choose|address: Seq<u8>, bump: u8| is_canonical(seeds, program_id, address, bump);
    let witness = (pair.0, pair.1);
    assert(is_canonical(seeds, program_id, witness.0, witness.1));
}

/// Finds the address that `seeds` lead to under `program_id` with their
/// canonical bump, and that bump; nothing where no bump from 255 down to 1
/// leads to an address.
pub fn find_program_address(seeds: &[&[u8]], program_id: &Pubkey) -> (r: Option<(Pubkey, u8)>)
    ensures
        match r {
            Some((address, bump)) => canonical_address(seeds.deep_view(), program_id@) == Some(
                (address@, bump),
            ),
            None => canonical_address(seeds.deep_view(), program_id@) is None,
        },
{
    let found = try_find_program_address(seeds, program_id);
    proof {
        match found {
            Some((address, bump)) => {
                lemma_canonical_address(seeds.deep_view(), program_id@, address@, bump);
            },
            None => {},
        }
    }
    found
}

/// Whether two addresses are the same, byte for byte.
pub fn are_keys_equal(first: &Pubkey, second: &Pubkey) -> (r: bool)
    ensures
        r == (first@ == second@),
        r == (*first == *second),
{
    let mut i: usize = 0;
    while i < 32
        invariant
            i <= 32,
            forall|j: int| 0 <= j < i ==> first@[j] == second@[j],
        decreases 32 - i,
    {
        if first[i] != second[i] {
            return false;
        }
        i += 1;
    }
    assert(first@ =~= second@);
    assert(*first =~= *second);
    true
}

} // verus!
