use vstd::prelude::*;

verus! {

/// The SHA-256 digest of a byte string.
pub uninterp spec fn sha256_of(data: Seq<u8>) -> Seq<u8>;

/// The Keccak-256 digest of a byte string.
pub uninterp spec fn keccak256_of(data: Seq<u8>) -> Seq<u8>;

/// The number below 100 drawn by a ChaCha20 generator seeded with the given
/// 32 bytes.
pub uninterp spec fn draw_of(seed: Seq<u8>) -> u64;

/// Relies on sha2's `Sha256` through `Digest::digest`: the SHA-256 digest of
/// the input, a function of the input bytes alone, 32 bytes long.
#[verifier::external_body]
pub(crate) fn sha256(data: &Vec<u8>) -> (r: Vec<u8>)
    ensures
        r@ == sha256_of(data@),
        r@.len() == 32,
{
    let digest = <sha2::Sha256 as sha2::Digest>::digest(data.as_slice());
    digest.as_slice().to_vec()
}

/// Relies on sha3's `Keccak256` through `Digest::digest`: the Keccak-256
/// digest of the input, a function of the input bytes alone, 32 bytes long.
#[verifier::external_body]
pub(crate) fn keccak256(data: &Vec<u8>) -> (r: Vec<u8>)
    ensures
        r@ == keccak256_of(data@),
        r@.len() == 32,
{
    let digest = <sha3::Keccak256 as sha3::digest::Digest>::digest(data.as_slice());
    digest.as_slice().to_vec()
}

/// Relies on rand_chacha's `ChaCha20Rng::from_seed`, which is documented as
/// portable and reproducible from the seed alone, and on rand's
/// `RngExt::random_range`, whose result lies in the given range; the draw is
/// therefore a function of the 32 seed bytes alone, and below 100.
#[verifier::external_body]
pub(crate) fn draw_below_100(seed: &Vec<u8>) -> (r: u64)
    requires
        seed@.len() == 32,
    ensures
        r == draw_of(seed@),
        r < 100,
{
    let mut seed_array = [0u8; 32];
    seed_array.copy_from_slice(seed.as_slice());
    let mut rng = <rand_chacha::ChaCha20Rng as rand::SeedableRng>::from_seed(seed_array);
    rand::RngExt::random_range(&mut rng, 0..100u64)
}

} // verus!
