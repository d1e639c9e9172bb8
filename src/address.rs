use vstd::prelude::*;
use crate::bytes::append_bytes;
use crate::crypto::{sha3_256, sha3_256_of};
use crate::encoding::{hex_encode, hex_of};

verus! {

/// Scheme byte of an address derived from one public key.
pub const SINGLE_KEY_SCHEME: u8 = 0;

/// Scheme byte of an address derived from several public keys and a threshold.
pub const MULTI_KEY_SCHEME: u8 = 1;

/// The bytes of each key of a list.
pub open spec fn key_bytes(keys: Seq<Vec<u8>>) -> Seq<Seq<u8>> {
    keys.map_values(|k: Vec<u8>| k@)
}

/// The keys of a list, one after the other, in list order.
pub open spec fn keys_concat(keys: Seq<Seq<u8>>) -> Seq<u8>
    decreases keys.len(),
{
    if keys.len() == 0 {
        seq![]
    } else {
        keys_concat(keys.drop_last()) + keys.last()
    }
}

/// What is hashed for a single-key address: the key, then the scheme byte.
pub open spec fn single_key_preimage(public_key: Seq<u8>) -> Seq<u8> {
    public_key.push(SINGLE_KEY_SCHEME)
}

/// What is hashed for a multi-key address: the keys in order, the threshold
/// byte, then the scheme byte.
pub open spec fn multi_key_preimage(keys: Seq<Seq<u8>>, threshold: u8) -> Seq<u8> {
    keys_concat(keys).push(threshold).push(MULTI_KEY_SCHEME)
}

/// The hex-encoded address of one public key.
pub open spec fn single_key_address(public_key: Seq<u8>) -> Seq<char> {
    hex_of(sha3_256_of(single_key_preimage(public_key)))
}

/// The hex-encoded address of an ordered list of public keys and a threshold.
pub open spec fn multi_key_address(keys: Seq<Seq<u8>>, threshold: u8) -> Seq<char> {
    hex_of(sha3_256_of(multi_key_preimage(keys, threshold)))
}

/// The address of one public key.
pub fn single_key_address_of(public_key: &[u8]) -> (r: String)
    ensures
        r@ == single_key_address(public_key@),
{
    let mut preimage: Vec<u8> = Vec::new();
    append_bytes(&mut preimage, public_key);
    preimage.push(SINGLE_KEY_SCHEME);
    assert(preimage@ =~= single_key_preimage(public_key@));
    let digest = sha3_256(preimage.as_slice());
    hex_encode(digest.as_slice())
}

/// The address of an ordered list of public keys and a threshold.
pub fn multi_key_address_of(keys: &Vec<Vec<u8>>, threshold: u8) -> (r: String)
    ensures
        r@ == multi_key_address(key_bytes(keys@), threshold),
{
    let mut preimage: Vec<u8> = Vec::new();
    let mut i: usize = 0;
    while i < keys.len()
        invariant
            0 <= i <= keys@.len(),
            preimage@ == keys_concat(key_bytes(keys@.subrange(0, i as int))),
        decreases keys@.len() - i,
    {
        append_bytes(&mut preimage, keys[i].as_slice());
        i += 1;
        assert(key_bytes(keys@.subrange(0, i as int)).drop_last() =~= key_bytes(keys@.subrange(0, i - 1)));
    }
    assert(keys@.subrange(0, keys@.len() as int) =~= keys@);
    preimage.push(threshold);
    preimage.push(MULTI_KEY_SCHEME);
    let digest = sha3_256(preimage.as_slice());
    hex_encode(digest.as_slice())
}

/// For two distinct 32-byte keys, the bytes hashed for a multi-key address
/// differ with the order of the keys: the address binds the order in which the
/// keys were supplied.
pub proof fn lemma_multi_key_preimage_order_sensitive(pk1: Seq<u8>, pk2: Seq<u8>, threshold: u8)
    requires
        pk1.len() == 32,
        pk2.len() == 32,
        pk1 != pk2,
    ensures
        multi_key_preimage(seq![pk1, pk2], threshold) != multi_key_preimage(seq![pk2, pk1], threshold),
{
    let a = multi_key_preimage(seq![pk1, pk2], threshold);
    let b = multi_key_preimage(seq![pk2, pk1], threshold);
    assert(seq![pk1, pk2].drop_last() =~= seq![pk1]);
    assert(seq![pk1].drop_last() =~= Seq::<Seq<u8>>::empty());
    assert(seq![pk2, pk1].drop_last() =~= seq![pk2]);
    assert(seq![pk2].drop_last() =~= Seq::<Seq<u8>>::empty());
    assert(keys_concat(Seq::<Seq<u8>>::empty()) == Seq::<u8>::empty());
    assert(keys_concat(seq![pk1]) =~= pk1);
    assert(keys_concat(seq![pk2]) =~= pk2);
    assert(a.subrange(0, 32) =~= pk1);
    assert(b.subrange(0, 32) =~= pk2);
}

} // verus!
