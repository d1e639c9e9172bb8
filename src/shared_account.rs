use vstd::prelude::*;
use crate::account::AptosAccount;
use crate::address::{key_bytes, multi_key_address, multi_key_address_of};
use crate::bytes::copy_bytes;

verus! {

/// `n` freshly generated keypairs that share one address with threshold `k`.
pub struct AptosSharedAccount {
    pub n: u8,
    pub k: u8,
    pub keypairs: Vec<AptosAccount>,
}

impl AptosSharedAccount {
    /// The members' keypairs, in order.
    pub open spec fn members(&self) -> Seq<AptosAccount> {
        self.keypairs@
    }

    /// The members' public keys, in order.
    pub open spec fn member_keys(&self) -> Seq<Seq<u8>> {
        self.members().map_values(|a: AptosAccount| a.public_key_bytes())
    }

    /// Every member keypair is well formed.
    pub open spec fn wf(&self) -> bool {
        forall|i: int| 0 <= i < self.members().len() ==> (#[trigger] self.members()[i]).wf()
    }

    /// `n` fresh keypairs with threshold `k`.
    pub fn new(n: u8, k: u8) -> (r: AptosSharedAccount)
        ensures
            r.wf(),
            r.n == n,
            r.k == k,
            r.members().len() == n,
    {
        let mut keypairs: Vec<AptosAccount> = Vec::new();
        let mut i: u8 = 0;
        while i < n
            invariant
                i <= n,
                keypairs@.len() == i,
                forall|j: int| 0 <= j < keypairs@.len() ==> (#[trigger] keypairs@[j]).wf(),
            decreases n - i,
        {
            keypairs.push(AptosAccount::generate());
            i += 1;
        }
        AptosSharedAccount { n, k, keypairs }
    }

    /// The address of the members' public keys in order, with threshold `k`.
    pub fn address(&self) -> (r: String)
        ensures
            r@ == multi_key_address(self.member_keys(), self.k),
    {
        let mut keys: Vec<Vec<u8>> = Vec::new();
        let mut i: usize = 0;
        while i < self.keypairs.len()
            invariant
                0 <= i <= self.members().len(),
                self.members() == self.keypairs@,
                key_bytes(keys@) == self.member_keys().subrange(0, i as int),
            decreases self.members().len() - i,
        {
            let key = copy_bytes(self.keypairs[i].public_key_slice());
            let ghost before = keys@;
            keys.push(key);
            assert(key_bytes(keys@) =~= key_bytes(before).push(key@));
            i += 1;
            assert(self.member_keys().subrange(0, i as int) =~= self.member_keys().subrange(0, i - 1).push(key@));
        }
        assert(self.member_keys().subrange(0, self.members().len() as int) =~= self.member_keys());
        multi_key_address_of(&keys, self.k)
    }
}

} // verus!
