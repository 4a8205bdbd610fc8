use vstd::prelude::*;

use crate::store::Store;
use crate::support::{AccountId, BlockNumber, Nonce};

verus! {

/// The number of extrinsics that `who` has submitted, as recorded in
/// `nonces`: an account without an entry has submitted none.
pub open spec fn nonce_in(nonces: Map<Seq<char>, Nonce>, who: Seq<char>) -> nat {
    if nonces.contains_key(who) {
        nonces[who] as nat
    } else {
        0
    }
}

/// The block tracker: the current block number, and a nonce per account.
pub struct Pallet {
    block_number: BlockNumber,
    nonce: Store<Nonce>,
}

impl Pallet {
    /// The nonce store is well formed.
    pub closed spec fn wf(&self) -> bool {
        self.nonce.wf()
    }

    /// The current block number.
    pub closed spec fn current(&self) -> BlockNumber {
        self.block_number
    }

    /// The recorded nonces.
    pub closed spec fn nonces(&self) -> Map<Seq<char>, Nonce> {
        self.nonce@
    }

    /// A tracker at block zero with no nonce recorded.
    pub fn new() -> (s: Self)
        ensures
            s.wf(),
            s.current() == 0,
            s.nonces() == Map::<Seq<char>, Nonce>::empty(),
    {
        Pallet { block_number: 0, nonce: Store::new() }
    }

    /// The current block number.
    pub fn block_number(&self) -> (r: BlockNumber)
        ensures
            r == self.current(),
    {
        self.block_number
    }

    /// The nonce of `who`: zero where none is recorded.
    pub fn nonce(&self, who: &AccountId) -> (r: Nonce)
        requires
            self.wf(),
        ensures
            r as nat == nonce_in(self.nonces(), who@),
    {
        match self.nonce.get(who) {
            Some(n) => *n,
            None => 0,
        }
    }

    /// Increases the block number by one.
    pub fn inc_block_number(&mut self)
        requires
            old(self).current() < Nonce::MAX,
        ensures
            final(self).current() == old(self).current() + 1,
            final(self).nonces() == old(self).nonces(),
            final(self).wf() == old(self).wf(),
    {
        self.block_number = self.block_number + 1;
    }

    /// Increases the nonce of `who` by one, recording it if it was absent.
    pub fn inc_nonce(&mut self, who: &AccountId)
        requires
            old(self).wf(),
            nonce_in(old(self).nonces(), who@) < Nonce::MAX,
        ensures
            final(self).wf(),
            final(self).current() == old(self).current(),
            final(self).nonces() == old(self).nonces().insert(
                who@,
                (nonce_in(old(self).nonces(), who@) + 1) as Nonce,
            ),
    {
        let next: Nonce = match self.nonce.get(who) {
            Some(current) => *current + 1,
            None => 1,
        };
        self.nonce.insert(who.clone(), next);
    }
}

} // verus!
