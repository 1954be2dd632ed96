//! Subscribe: a Subscriber gives the Author its NTRU public key.
use vstd::prelude::*;
use crate::keys::NtruPublicKey;
use crate::tbits::{NTrytes, Tbits};

verus! {

/// What a subscription is wrapped from.
pub struct ContentWrap<'a, Prng> {
    /// The message that the subscription is linked to.
    pub link: &'a Tbits,
    pub nonce: NTrytes,
    pub unsubscribe_key: NTrytes,
    pub subscriber_ntru_pk: &'a NtruPublicKey,
    pub author_ntru_pk: &'a NtruPublicKey,
    pub prng: &'a Prng,
}

} // verus!
