//! Identities, and the record of who authorized a call.

use vstd::prelude::*;

verus! {

/// An identity: an owner, an agent, an administrator or one of the services.
///
/// Its model is the text of its key; two identities are the same principal
/// exactly when their texts are equal.
#[derive(Debug, PartialEq, Eq, Hash)]
pub struct Address {
    id: String,
}

impl View for Address {
    type V = Seq<char>;

    closed spec fn view(&self) -> Seq<char> {
        self.id@
    }
}

impl Clone for Address {
    fn clone(&self) -> (copy: Self)
        ensures
            copy@ == self@,
    {
        Address { id: self.id.clone() }
    }
}

impl Address {
    /// The identity with the key `id`.
    pub fn new(id: &str) -> (address: Address)
        ensures
            address@ == id@,
    {
        Address { id: id.to_owned() }
    }

    /// The key of this identity.
    pub fn as_str(&self) -> (id: &str)
        ensures
            id@ == self@,
    {
        self.id.as_str()
    }

    /// Whether `self` and `other` name the same principal.
    pub fn same_as(&self, other: &Address) -> (same: bool)
        ensures
            same == (self@ == other@),
    {
        self.id == other.id
    }
}

/// The principals that authorized the current call.
///
/// A service never authenticates anybody itself: whoever hands a call to it
/// has verified the signatures and lists here the identities that signed.
#[derive(Debug)]
pub struct Auth {
    signers: Vec<Address>,
}

impl View for Auth {
    type V = Set<Seq<char>>;

    closed spec fn view(&self) -> Set<Seq<char>> {
        Set::new(
            |id: Seq<char>|
                exists|i: int| 0 <= i < self.signers@.len() && #[trigger] self.signers@[i]@ == id,
        )
    }
}

impl Auth {
    /// A call that nobody authorized.
    pub fn none() -> (auth: Auth)
        ensures
            auth@ == Set::<Seq<char>>::empty(),
    {
        Auth { signers: Vec::new() }
    }

    /// A call authorized by `signer` alone.
    pub fn signed_by(signer: &Address) -> (auth: Auth)
        ensures
            auth@ == Set::<Seq<char>>::empty().insert(signer@),
    {
        let mut auth = Auth::none();
        auth.add(signer);
        auth
    }

    /// Records that `signer` authorized the call as well.
    pub fn add(&mut self, signer: &Address)
        ensures
            final(self)@ == old(self)@.insert(signer@),
    {
        self.signers.push(signer.clone());
        proof {
            let before = old(self).signers@;
            let after = self.signers@;
            assert forall|id: Seq<char>| self@.contains(id) == old(self)@.insert(signer@).contains(
                id,
            ) by {
                if old(self)@.contains(id) {
                    let i = choose|i: int| 0 <= i < before.len() && #[trigger] before[i]@ == id;
                    assert(after[i]@ == id);
                }
                if id == signer@ {
                    assert(after[before.len() as int]@ == id);
                }
            }
        }
    }

    /// Whether `principal` authorized the call.
    pub fn has(&self, principal: &Address) -> (authorized: bool)
        ensures
            authorized == self@.contains(principal@),
    {
        let mut i: usize = 0;
        while i < self.signers.len()
            invariant
                i <= self.signers@.len(),
                forall|j: int| 0 <= j < i ==> #[trigger] self.signers@[j]@ != principal@,
            decreases self.signers@.len() - i,
        {
            if self.signers[i].same_as(principal) {
                return true;
            }
            i += 1;
        }
        false
    }
}

} // verus!
