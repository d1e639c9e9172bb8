use vstd::prelude::*;
use crate::address::{single_key_address, single_key_address_of};
use crate::bytes::{bytes_equal, copy_bytes};
use crate::crypto::{derive_public_key, ed25519_public_of, ed25519_signature_of, generate_keypair, sign_message};
use crate::encoding::{hex_decode, hex_decoded, hex_encode, hex_of};
use crate::error::AptosError;

verus! {

/// Whether bytes are a keypair encoding: a 32-byte secret key followed by the
/// 32-byte public key that it determines.
pub open spec fn keypair_encoding_valid(b: Seq<u8>) -> bool {
    b.len() == 64 && b.subrange(32, 64) == ed25519_public_of(b.subrange(0, 32))
}

/// An ed25519 signing keypair.
pub struct AptosAccount {
    secret: Vec<u8>,
    public: Vec<u8>,
}

impl AptosAccount {
    /// The 32-byte secret key.
    pub closed spec fn secret_key(&self) -> Seq<u8> {
        self.secret@
    }

    /// The 32-byte public key.
    pub closed spec fn public_key_bytes(&self) -> Seq<u8> {
        self.public@
    }

    /// Both keys are 32 bytes, and the public key is the one that the secret
    /// key determines.
    pub open spec fn wf(&self) -> bool {
        &&& self.secret_key().len() == 32
        &&& self.public_key_bytes().len() == 32
        &&& self.public_key_bytes() == ed25519_public_of(self.secret_key())
    }

    /// A fresh keypair from the operating system's random source.
    pub fn generate() -> (r: AptosAccount)
        ensures
            r.wf(),
    {
        let bytes = generate_keypair();
        let secret = copy_bytes(vstd::slice::slice_subrange(bytes.as_slice(), 0, 32));
        let public = copy_bytes(vstd::slice::slice_subrange(bytes.as_slice(), 32, 64));
        AptosAccount { secret, public }
    }

    /// The keypair that a 64-byte keypair encoding stands for; an encoding whose
    /// public half does not belong to its secret half is refused.
    pub fn import(bytes: &[u8]) -> (r: Result<AptosAccount, AptosError>)
        ensures
            r is Ok <==> keypair_encoding_valid(bytes@),
            r matches Ok(a) ==> a.wf() && a.secret_key() == bytes@.subrange(0, 32),
            r matches Err(e) ==> e is InvalidKeyEncoding,
    {
        if bytes.len() != 64 {
            return Err(AptosError::InvalidKeyEncoding);
        }
        let secret = copy_bytes(vstd::slice::slice_subrange(bytes, 0, 32));
        let public = derive_public_key(secret.as_slice());
        if !bytes_equal(vstd::slice::slice_subrange(bytes, 32, 64), public.as_slice()) {
            return Err(AptosError::InvalidKeyEncoding);
        }
        Ok(AptosAccount { secret, public })
    }

    /// A fresh keypair when no key is given, else the keypair whose hex-encoded
    /// keypair encoding is given.
    pub fn new(keypair_opt: Option<String>) -> (r: Result<AptosAccount, AptosError>)
        ensures
            r matches Ok(a) ==> a.wf(),
            keypair_opt is None ==> r is Ok,
            keypair_opt matches Some(k) ==> (r is Ok <==> (hex_decoded(k@) matches Some(b)
                && keypair_encoding_valid(b))),
            keypair_opt matches Some(k) ==> (r matches Ok(a) ==> hex_decoded(k@) == Some(
                a.secret_key() + a.public_key_bytes())),
            r matches Err(e) ==> e is InvalidKeyEncoding,
    {
        match keypair_opt {
            None => Ok(AptosAccount::generate()),
            Some(key) => match hex_decode(key.as_str()) {
                None => Err(AptosError::InvalidKeyEncoding),
                Some(bytes) => {
                    let r = AptosAccount::import(bytes.as_slice());
                    assert(r matches Ok(a) ==> bytes@ =~= a.secret_key() + a.public_key_bytes());
                    r
                },
            },
        }
    }

    /// The public key, hex encoded.
    pub fn public_key(&self) -> (r: String)
        ensures
            r@ == hex_of(self.public_key_bytes()),
    {
        hex_encode(self.public.as_slice())
    }

    /// The keypair encoding (secret key, then public key), hex encoded.
    pub fn keypair(&self) -> (r: String)
        ensures
            r@ == hex_of(self.secret_key() + self.public_key_bytes()),
    {
        let mut bytes = copy_bytes(self.secret.as_slice());
        crate::bytes::append_bytes(&mut bytes, self.public.as_slice());
        hex_encode(bytes.as_slice())
    }

    /// The account's address: the hash of its public key and the single-key
    /// scheme byte, hex encoded.
    pub fn address(&self) -> (r: String)
        ensures
            r@ == single_key_address(self.public_key_bytes()),
    {
        single_key_address_of(self.public.as_slice())
    }

    /// The signature of `to_sign` under this account's secret key, hex encoded.
    pub fn sign(&self, to_sign: &[u8]) -> (r: String)
        requires
            self.wf(),
        ensures
            r@ == hex_of(ed25519_signature_of(self.secret_key(), to_sign@)),
    {
        let signature = sign_message(self.secret.as_slice(), to_sign);
        hex_encode(signature.as_slice())
    }

    /// The 32-byte public key.
    pub fn public_key_slice(&self) -> (r: &[u8])
        ensures
            r@ == self.public_key_bytes(),
    {
        self.public.as_slice()
    }
}

/// An account imported from a valid keypair encoding reports the public key
/// derived from the secret half, and the address of that public key with the
/// single-key scheme byte.
pub proof fn lemma_import_derives_public_key(b: Seq<u8>, a: AptosAccount)
    requires
        keypair_encoding_valid(b),
        a.wf(),
        a.secret_key() == b.subrange(0, 32),
    ensures
        a.public_key_bytes() == ed25519_public_of(b.subrange(0, 32)),
        hex_of(a.public_key_bytes()) == hex_of(ed25519_public_of(b.subrange(0, 32))),
        single_key_address(a.public_key_bytes()) == crate::encoding::hex_of(
            crate::crypto::sha3_256_of(ed25519_public_of(b.subrange(0, 32)).push(0u8)),
        ),
{
}

} // verus!
