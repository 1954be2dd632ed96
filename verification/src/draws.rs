//! Random values that a message needs.
use vstd::prelude::*;
use crate::tbits::NTrytes;

verus! {

/// How a nonce and a key are drawn for one message: two functions, each of which
/// is asked once for a value of the size that the sponge uses.
pub struct Draws<RandomNonce, RandomKey> {
    pub nonce_size: usize,
    pub key_size: usize,
    pub random_nonce: RandomNonce,
    pub random_key: RandomKey,
}

impl<RandomNonce, RandomKey> Draws<RandomNonce, RandomKey> where
    RandomNonce: FnOnce(usize) -> NTrytes,
    RandomKey: FnOnce(usize) -> NTrytes,
 {
    /// Both functions can be asked for their sizes.
    pub open spec fn ready(self) -> bool {
        &&& call_requires(self.random_nonce, (self.nonce_size,))
        &&& call_requires(self.random_key, (self.key_size,))
    }

    /// `nonce` and `key` are what the functions gave when asked for their sizes.
    pub open spec fn drawn(self, nonce: NTrytes, key: NTrytes) -> bool {
        &&& call_ensures(self.random_nonce, (self.nonce_size,), nonce)
        &&& call_ensures(self.random_key, (self.key_size,), key)
    }

    /// Draws the nonce, then the key.
    pub fn draw(self) -> (values: (NTrytes, NTrytes))
        requires
            self.ready(),
        ensures
            self.drawn(values.0, values.1),
    {
        let Draws { nonce_size, key_size, random_nonce, random_key } = self;
        let nonce = random_nonce(nonce_size);
        let key = random_key(key_size);
        (nonce, key)
    }
}

} // verus!
