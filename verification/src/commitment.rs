use vstd::prelude::*;

verus! {

/// The abstract value of the commitment scheme on a byte sequence,
/// determined by the input bytes alone.
pub uninterp spec fn commit_of(data: Seq<u8>) -> Seq<u8>;

/// Relies on anchor_lang::solana_program::hash::hash (SHA-256): the
/// 32-byte digest it returns is a function of the input bytes alone.
#[verifier::external_body]
fn digest(data: &Vec<u8>) -> (r: [u8; 32])
    ensures
        r@ == commit_of(data@),
{
    anchor_lang::solana_program::hash::hash(data.as_slice()).to_bytes()
}

/// Seals a defining byte sequence into its 32-byte commitment.
pub fn commit(data: &Vec<u8>) -> (r: [u8; 32])
    ensures
        r@ == commit_of(data@),
{
    digest(data)
}

/// The commitment function is deterministic and referentially transparent:
/// equal inputs always seal into equal commitments.
pub proof fn lemma_commit_deterministic(a: Seq<u8>, b: Seq<u8>)
    requires
        a == b,
    ensures
        commit_of(a) == commit_of(b),
{
}

} // verus!
