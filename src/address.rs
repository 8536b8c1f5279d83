use vstd::prelude::*;

use crate::error::AppError;

verus! {

/// A 32-byte identity: a signer, a program, or a storage slot.
#[derive(Clone, Copy, Debug)]
pub struct Address {
    pub bytes: [u8; 32],
}

impl View for Address {
    type V = Seq<u8>;

    open spec fn view(&self) -> Seq<u8> {
        self.bytes@
    }
}

impl Address {
    pub fn new(bytes: [u8; 32]) -> (r: Address)
        ensures
            r@ == bytes@,
    {
        Address { bytes }
    }

    /// The all-zero identity.
    pub fn zero() -> (r: Address)
        ensures
            r@ == Seq::new(32, |i: int| 0u8),
    {
        let r = Address { bytes: [0u8; 32] };
        assert(r@ =~= Seq::new(32, |i: int| 0u8));
        r
    }

    /// Byte-wise comparison of two identities.
    pub fn same(&self, other: &Address) -> (r: bool)
        ensures
            r == (self@ == other@),
    {
        let mut i: usize = 0;
        while i < 32
            invariant
                i <= 32,
                self@.len() == 32,
                other@.len() == 32,
                forall|j: int| 0 <= j < i ==> self@[j] == other@[j],
            decreases 32 - i,
        {
            if self.bytes[i] != other.bytes[i] {
                return false;
            }
            i = i + 1;
        }
        assert(self@ =~= other@);
        true
    }
}

impl PartialEq for Address {
    fn eq(&self, other: &Address) -> (r: bool) {
        self.same(other)
    }
}

impl vstd::std_specs::cmp::PartialEqSpecImpl for Address {
    open spec fn obeys_eq_spec() -> bool {
        true
    }

    open spec fn eq_spec(&self, other: &Address) -> bool {
        self@ == other@
    }
}

/// The address and bump seed that the ledger derives from `seeds` under `program_id`,
/// or `None` where none can be derived: no bump seed gives an address off the curve, or
/// the seeds are too many (more than fifteen, the bump seed making sixteen) or one is longer
/// than 32 bytes.
pub uninterp spec fn program_address(seeds: Seq<Seq<u8>>, program_id: Seq<u8>) -> Option<(Seq<u8>, u8)>;

/// The view of a derivation result.
pub open spec fn derivation_view(r: Option<(Address, u8)>) -> Option<(Seq<u8>, u8)> {
    match r {
        Some(p) => Some((p.0@, p.1)),
        None => None,
    }
}

/// Relies on `Pubkey::try_find_program_address` of solana-program: it searches the bump
/// seeds from 255 down and returns the first off-curve address, a function of the seeds
/// and the program id alone.
#[verifier::external_body]
fn find_program_address(seeds: &Vec<Vec<u8>>, program_id: &Address) -> (r: Option<(Address, u8)>)
    ensures
        derivation_view(r) == program_address(seeds.deep_view(), program_id@),
{
    let parts: Vec<&[u8]> = seeds.iter().map(|s| s.as_slice()).collect();
    let id = solana_program::pubkey::Pubkey::new_from_array(program_id.bytes);
    solana_program::pubkey::Pubkey::try_find_program_address(&parts, &id).map(
        |(key, bump)| (Address { bytes: key.to_bytes() }, bump),
    )
}

/// Derives the storage-slot address for `seeds` under `program_id`.
pub fn derive_address(program_id: &Address, seeds: &Vec<Vec<u8>>) -> (r: Option<(Address, u8)>)
    ensures
        derivation_view(r) == program_address(seeds.deep_view(), program_id@),
{
    find_program_address(seeds, program_id)
}

/// What checking `candidate` against the derivation of `seeds` gives.
pub open spec fn derivation_check(seeds: Seq<Seq<u8>>, program_id: Seq<u8>, candidate: Seq<u8>) -> Result<u8, AppError> {
    match program_address(seeds, program_id) {
        Some((key, bump)) => if key == candidate {
            Ok(bump)
        } else {
            Err(AppError::InvalidDerivedKey)
        },
        None => Err(AppError::InvalidDerivedKey),
    }
}

/// Checks that `candidate` is the slot derived from `seeds`, and returns its bump seed.
pub fn verify_derivation(program_id: &Address, seeds: &Vec<Vec<u8>>, candidate: &Address) -> (r: Result<u8, AppError>)
    ensures
        r == derivation_check(seeds.deep_view(), program_id@, candidate@),
{
    match find_program_address(seeds, program_id) {
        Some((key, bump)) => {
            if key.same(candidate) {
                Ok(bump)
            } else {
                Err(AppError::InvalidDerivedKey)
            }
        },
        None => Err(AppError::InvalidDerivedKey),
    }
}

/// A derived slot verifies against its own derivation with the same bump seed, and no other
/// address verifies against it.
pub proof fn lemma_derivation_round_trip(seeds: Seq<Seq<u8>>, program_id: Seq<u8>, other: Seq<u8>)
    ensures
        program_address(seeds, program_id) matches Some((key, bump)) ==> {
            &&& derivation_check(seeds, program_id, key) == Ok::<u8, AppError>(bump)
            &&& other != key ==> derivation_check(seeds, program_id, other) == Err::<u8, AppError>(
                AppError::InvalidDerivedKey,
            )
        },
{
}

} // verus!
