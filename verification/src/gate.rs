use vstd::prelude::*;

verus! {

/// The proof-gate capability: turns a proof and its ordered 32-byte public
/// inputs into an accept or reject decision. Implementations decide for
/// themselves; callers learn nothing of the verdict beyond the returned
/// boolean, so a rejection aborts a commit with no state change whatever the
/// implementation does.
pub trait VerifierInterface {
    fn verify(&self, proof_bytes: &Vec<u8>, public_inputs: &Vec<Vec<u8>>) -> bool;
}

} // verus!
