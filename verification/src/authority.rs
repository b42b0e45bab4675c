use crate::error::TransferError;
use crate::identity::Identity;
use solana_program::pubkey::Pubkey;
use vstd::prelude::*;

verus! {

/// The label under which a program's authority is derived: the bytes of the
/// word "authority".
pub open spec fn authority_label() -> Seq<u8> {
    seq![97u8, 117u8, 116u8, 104u8, 111u8, 114u8, 105u8, 116u8, 121u8]
}

/// The label as bytes.
pub fn label() -> (bytes: Vec<u8>)
    ensures
        bytes@ == authority_label(),
{
    let bytes: Vec<u8> = vec![97u8, 117u8, 116u8, 104u8, 111u8, 114u8, 105u8, 116u8, 121u8];
    bytes
}

/// The address and bump seed that the runtime's search derives from one
/// seed and a program's identity, or `None` where the search finds none.
pub uninterp spec fn program_address(seed: Seq<u8>, program: Seq<u8>) -> Option<(Seq<u8>, u8)>;

/// The authority of a program: what is derived from its identity and the
/// fixed label. It depends on nothing else.
pub open spec fn derived_authority(program: Seq<u8>) -> Option<(Seq<u8>, u8)> {
    program_address(authority_label(), program)
}

/// Whether `supplied` is the authority of `program`.
pub open spec fn is_authority_of(supplied: Seq<u8>, program: Seq<u8>) -> bool {
    derived_authority(program) matches Some(pair) && pair.0 == supplied
}

/// An identity derived from a program's identity, and the bump seed that
/// the derivation settled on.
#[derive(Clone, Copy, Debug, PartialEq, Eq)]
pub struct DerivedAuthority {
    pub identity: Identity,
    pub bump: u8,
}

impl View for DerivedAuthority {
    type V = (Seq<u8>, u8);

    open spec fn view(&self) -> (Seq<u8>, u8) {
        (self.identity@, self.bump)
    }
}

/// Calls `Pubkey::try_find_program_address` of solana-program with the one
/// seed `seed`. Believed of it: what it returns is a function of the seed
/// and the program's identity alone, here called `program_address`.
#[verifier::external_body]
fn find_program_address(seed: &[u8], program: &Identity) -> (r: Option<DerivedAuthority>)
    ensures
        match r {
            Some(found) => program_address(seed@, program@) == Some(found@),
            None => program_address(seed@, program@) is None,
        },
{
    Pubkey::try_find_program_address(&[seed], &Pubkey::new_from_array(program.bytes)).map(
        |(address, bump)| DerivedAuthority { identity: Identity { bytes: address.to_bytes() }, bump },
    )
}

impl DerivedAuthority {
    /// Whether `outcome` is what deriving the authority of `program` gives.
    pub open spec fn derived_from(outcome: Option<DerivedAuthority>, program: Seq<u8>) -> bool {
        match outcome {
            Some(found) => derived_authority(program) == Some(found@),
            None => derived_authority(program) is None,
        }
    }

    /// Derives the authority of `program`: the identity and bump seed that
    /// anyone who knows the program's identity can compute again.
    pub fn derive(program: &Identity) -> (r: Option<DerivedAuthority>)
        ensures
            Self::derived_from(r, program@),
    {
        let seed = label();
        find_program_address(seed.as_slice(), program)
    }

    /// The seeds that let the runtime sign for this authority: the label,
    /// then the bump seed.
    pub open spec fn spec_signer_seeds(&self) -> Seq<Seq<u8>> {
        seq![authority_label(), seq![self.bump]]
    }

    /// The signer seeds as bytes, to hand to the runtime with the call.
    pub fn signer_seeds(&self) -> (seeds: Vec<Vec<u8>>)
        ensures
            seeds@.len() == self.spec_signer_seeds().len(),
            forall|i: int| 0 <= i < seeds@.len() ==> seeds@[i]@ == self.spec_signer_seeds()[i],
    {
        let bump_seed: Vec<u8> = vec![self.bump];
        let seeds: Vec<Vec<u8>> = vec![label(), bump_seed];
        seeds
    }
}

/// Derivation is deterministic: whatever two derivations from the same
/// program identity give, they give the same identity and the same bump
/// seed, or both give nothing.
pub proof fn lemma_derivation_is_deterministic(
    first: Option<DerivedAuthority>,
    second: Option<DerivedAuthority>,
    program: Seq<u8>,
)
    requires
        DerivedAuthority::derived_from(first, program),
        DerivedAuthority::derived_from(second, program),
    ensures
        first == second,
{
    if let Some(a) = first {
        let b = second->0;
        assert(a.identity.bytes == b.identity.bytes);
    }
}

/// The access-control gate: accepts `supplied` only if it is the authority
/// derived from `program`, and then hands back the derived pair.
pub fn verify_authority(program: &Identity, supplied: &Identity) -> (r: Result<
    DerivedAuthority,
    TransferError,
>)
    ensures
        is_authority_of(supplied@, program@) ==> (r matches Ok(found) && found.identity@
            == supplied@ && derived_authority(program@) == Some(found@)),
        !is_authority_of(supplied@, program@) ==> (r matches Err(TransferError::Unauthorized)),
{
    match DerivedAuthority::derive(program) {
        Some(found) => {
            if found.identity.same_as(supplied) {
                Ok(found)
            } else {
                Err(TransferError::Unauthorized)
            }
        },
        None => Err(TransferError::Unauthorized),
    }
}

} // verus!
