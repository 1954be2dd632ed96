//! Keyload: a session key, shared with those who hold a pre-shared key or an
//! NTRU private key.
use vstd::prelude::*;
use crate::keys::{NtruPublicKey, Psk, PskId};
use crate::tbits::{NTrytes, Tbits};

verus! {

/// What a keyload is wrapped from.
pub struct ContentWrap<'a, Prng, Psks, NtruPks> {
    /// The message that the keyload is linked to.
    pub link: &'a Tbits,
    pub nonce: NTrytes,
    /// The session key.
    pub key: NTrytes,
    /// The pre-shared keys, each with its identifier, under which the session key is masked.
    pub psks: Psks,
    pub prng: &'a Prng,
    /// The NTRU public keys for which the session key is encapsulated.
    pub ntru_pks: NtruPks,
}

/// A keyload for at most one pre-shared key and at most one NTRU public key, as
/// a Subscriber wraps it.
pub type SubscriberContentWrap<'a, Prng> = ContentWrap<
    'a,
    Prng,
    Option<(&'a PskId, &'a Psk)>,
    Option<&'a NtruPublicKey>,
>;

/// What an unwrapped keyload gives.
#[derive(Clone, Debug, PartialEq, Eq)]
pub struct ContentUnwrap {
    pub nonce: NTrytes,
    pub key: NTrytes,
}

} // verus!
