//! The replay cache: the set of nonces already accepted on this channel. A
//! datagram whose nonce is in the cache is rejected, so an intercepted
//! envelope cannot be fed to the codec a second time.
//!
//! The set itself is fxhash's `FxHashSet`, an alias of std's `HashSet` with a
//! faster hasher. That alias cannot be declared to the verifier as a type of
//! its own, so the set lives in a private field of an opaque struct, and the
//! methods the codec needs are trusted wrappers whose contracts speak of
//! `nonce_set_contents`, the mathematical set of nonces held.
use vstd::prelude::*;

verus! {

/// The set of nonces that `s` holds, each as its byte sequence.
pub uninterp spec fn nonce_set_contents(s: NonceSet) -> Set<Seq<u8>>;

/// A set of nonces, backed by a hash set.
#[verifier::external_body]
pub struct NonceSet {
    set: fxhash::FxHashSet<Vec<u8>>,
}

impl NonceSet {
    /// Relies on `HashSet::default` (through fxhash's `FxHashSet` alias): the
    /// new set is empty.
    #[verifier::external_body]
    pub fn new() -> (r: NonceSet)
        ensures
            nonce_set_contents(r) == Set::<Seq<u8>>::empty(),
            nonce_set_contents(r).finite(),
    {
        NonceSet { set: fxhash::FxHashSet::default() }
    }

    /// Relies on `HashSet::contains`: whether an equal value was inserted and
    /// not cleared since.
    #[verifier::external_body]
    pub fn contains(&self, nonce: &Vec<u8>) -> (r: bool)
        ensures
            r == nonce_set_contents(*self).contains(nonce@),
    {
        self.set.contains(nonce)
    }

    /// Relies on `HashSet::insert`: afterwards the set holds the value and
    /// everything it held before.
    #[verifier::external_body]
    pub fn insert(&mut self, nonce: Vec<u8>)
        ensures
            nonce_set_contents(*final(self)) == nonce_set_contents(*old(self)).insert(nonce@),
            nonce_set_contents(*final(self)).finite(),
    {
        self.set.insert(nonce);
    }

    /// Relies on `HashSet::len`: the number of values held.
    #[verifier::external_body]
    pub fn len(&self) -> (r: usize)
        ensures
            r as nat == nonce_set_contents(*self).len(),
    {
        self.set.len()
    }

    /// Relies on `HashSet::clear`: afterwards the set is empty.
    #[verifier::external_body]
    pub fn clear(&mut self)
        ensures
            nonce_set_contents(*final(self)) == Set::<Seq<u8>>::empty(),
            nonce_set_contents(*final(self)).finite(),
    {
        self.set.clear();
    }
}

} // verus!
