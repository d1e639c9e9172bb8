use vstd::prelude::*;
use ed25519_dalek::Signer;
use tiny_keccak::Hasher;
use rand::{Rng, SeedableRng};

verus! {

/// The SHA3-256 digest of a byte string.
pub uninterp spec fn sha3_256_of(data: Seq<u8>) -> Seq<u8>;

/// The ed25519 public key that a 32-byte secret key determines.
pub uninterp spec fn ed25519_public_of(secret: Seq<u8>) -> Seq<u8>;

/// The ed25519 signature of a message under a 32-byte secret key.
pub uninterp spec fn ed25519_signature_of(secret: Seq<u8>, message: Seq<u8>) -> Seq<u8>;

/// Whether bytes are the compressed encoding of a curve point, as an ed25519
/// public key must be.
pub uninterp spec fn ed25519_public_valid(bytes: Seq<u8>) -> bool;

/// Relies on tiny_keccak's Sha3::v256 (update, then finalize into 32 bytes).
#[verifier::external_body]
pub(crate) fn sha3_256(data: &[u8]) -> (r: Vec<u8>)
    ensures
        r@ == sha3_256_of(data@),
        r@.len() == 32,
{
    let mut sha3 = tiny_keccak::Sha3::v256();
    sha3.update(data);
    let mut output = [0u8; 32];
    sha3.finalize(&mut output);
    output.to_vec()
}

/// Relies on ed25519_dalek's SecretKey::from_bytes (which fails only on a length
/// other than 32) and `PublicKey::from(&SecretKey)`, which derives the public key.
#[verifier::external_body]
pub(crate) fn derive_public_key(secret: &[u8]) -> (r: Vec<u8>)
    requires
        secret@.len() == 32,
    ensures
        r@ == ed25519_public_of(secret@),
        r@.len() == 32,
{
    let secret = ed25519_dalek::SecretKey::from_bytes(secret).unwrap();
    ed25519_dalek::PublicKey::from(&secret).to_bytes().to_vec()
}

/// Relies on ed25519_dalek's Keypair signing (`Signer::sign`), with the public
/// half derived from the secret key as above; a signature is 64 bytes.
#[verifier::external_body]
pub(crate) fn sign_message(secret: &[u8], message: &[u8]) -> (r: Vec<u8>)
    requires
        secret@.len() == 32,
    ensures
        r@ == ed25519_signature_of(secret@, message@),
        r@.len() == 64,
{
    let secret = ed25519_dalek::SecretKey::from_bytes(secret).unwrap();
    let public = ed25519_dalek::PublicKey::from(&secret);
    let keypair = ed25519_dalek::Keypair { secret, public };
    keypair.sign(message).to_bytes().to_vec()
}

/// Relies on ed25519_dalek's Keypair::generate, seeded from the operating
/// system's random source: its public half is derived from its secret half.
#[verifier::external_body]
pub(crate) fn generate_keypair() -> (r: Vec<u8>)
    ensures
        r@.len() == 64,
        r@.subrange(32, 64) == ed25519_public_of(r@.subrange(0, 32)),
{
    let mut rng = rand::rngs::StdRng::from_seed(rand::rngs::OsRng.gen());
    ed25519_dalek::Keypair::generate(&mut rng).to_bytes().to_vec()
}

/// Relies on ed25519_dalek's PublicKey::from_bytes, which accepts exactly the
/// 32-byte encodings of curve points.
#[verifier::external_body]
pub(crate) fn is_valid_public_key(bytes: &[u8]) -> (r: bool)
    ensures
        r == ed25519_public_valid(bytes@),
        r ==> bytes@.len() == 32,
{
    ed25519_dalek::PublicKey::from_bytes(bytes).is_ok()
}

} // verus!
