use vstd::prelude::*;
use crate::address::{
    key_bytes, lemma_multi_key_preimage_order_sensitive, multi_key_address, multi_key_address_of, multi_key_preimage,
};
use crate::crypto::{ed25519_public_valid, is_valid_public_key};
use crate::encoding::{hex_decode, hex_decoded};
use crate::error::AptosError;

verus! {

/// A wallet shared by an ordered list of members, each a public key; its
/// threshold is the number of members.
pub struct AptosSharedWallet {
    public_keys: Vec<Vec<u8>>,
}

impl AptosSharedWallet {
    /// The members' public keys, in the order they were added.
    pub closed spec fn members(&self) -> Seq<Seq<u8>> {
        key_bytes(self.public_keys@)
    }

    /// Every member is a valid ed25519 public key, 32 bytes long.
    pub open spec fn wf(&self) -> bool {
        forall|i: int| 0 <= i < self.members().len() ==> ed25519_public_valid(#[trigger] self.members()[i])
            && self.members()[i].len() == 32
    }

    /// The threshold byte of the wallet's address: its number of members, as a byte.
    pub open spec fn threshold_byte(&self) -> u8 {
        (self.members().len() % 256) as u8
    }

    /// A wallet with no members.
    pub fn new() -> (r: AptosSharedWallet)
        ensures
            r.wf(),
            r.members() == Seq::<Seq<u8>>::empty(),
    {
        let r = AptosSharedWallet { public_keys: Vec::new() };
        assert(r.members() =~= Seq::<Seq<u8>>::empty());
        r
    }

    /// Adds a member given as a hex-encoded public key; a text that is not the
    /// hex encoding of a valid public key is refused and leaves the wallet as it was.
    pub fn add_public_key(&mut self, public_key: String) -> (r: Result<(), AptosError>)
        requires
            old(self).wf(),
        ensures
            final(self).wf(),
            r is Ok <==> (hex_decoded(public_key@) matches Some(b) && ed25519_public_valid(b)),
            r is Ok ==> final(self).members() == old(self).members().push(hex_decoded(public_key@)->Some_0),
            r is Err ==> final(self).members() == old(self).members(),
            r matches Err(e) ==> e is InvalidKeyEncoding,
    {
        match hex_decode(public_key.as_str()) {
            None => Err(AptosError::InvalidKeyEncoding),
            Some(bytes) => {
                if !is_valid_public_key(bytes.as_slice()) {
                    return Err(AptosError::InvalidKeyEncoding);
                }
                let ghost before = self.public_keys@;
                self.public_keys.push(bytes);
                assert(key_bytes(self.public_keys@) =~= key_bytes(before).push(bytes@));
                assert forall|i: int| 0 <= i < self.members().len() implies ed25519_public_valid(
                    #[trigger] self.members()[i]) && self.members()[i].len() == 32 by {
                    if i < old(self).members().len() {
                        assert(self.members()[i] == old(self).members()[i]);
                    }
                }
                Ok(())
            },
        }
    }

    /// The wallet's address: the hash of its members' keys in order, the
    /// threshold byte and the multi-key scheme byte, hex encoded.
    pub fn address(&self) -> (r: String)
        ensures
            r@ == multi_key_address(self.members(), self.threshold_byte()),
    {
        let k = (self.public_keys.len() % 256) as u8;
        multi_key_address_of(&self.public_keys, k)
    }
}

/// Two wallets with the same two distinct members, added in opposite orders,
/// hash different bytes for their addresses: a wallet's address binds the
/// order in which its members were added.
pub proof fn lemma_wallet_member_order_matters(w1: AptosSharedWallet, w2: AptosSharedWallet)
    requires
        w1.wf(),
        w2.wf(),
        w1.members().len() == 2,
        w2.members() == seq![w1.members()[1], w1.members()[0]],
        w1.members()[0] != w1.members()[1],
    ensures
        multi_key_preimage(w1.members(), w1.threshold_byte()) != multi_key_preimage(w2.members(), w2.threshold_byte()),
{
    let a = w1.members()[0];
    let b = w1.members()[1];
    assert(w1.members() =~= seq![a, b]);
    assert(w1.members()[0].len() == 32 && w1.members()[1].len() == 32);
    lemma_multi_key_preimage_order_sensitive(a, b, w1.threshold_byte());
}

} // verus!
