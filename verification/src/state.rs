//! What a Subscriber holds.
use vstd::prelude::*;
use crate::keys::{MssPublicKey, NtruPrivateKey, NtruPublicKey, Psk, PskId};
use crate::link::Link;

verus! {

/// The state of a Subscriber: what its operations are specified over, and what is
/// stored of it between two sessions.
pub struct SubscriberState<Prng, Store, LinkGen> {
    /// PRNG used for NTRU, sponge key generation, etc.
    pub prng: Prng,
    /// Own optional pre-shared key, with its identifier.
    pub opt_psk: Option<(PskId, Psk)>,
    /// Own optional NTRU key pair.
    pub opt_ntru: Option<(NtruPrivateKey, NtruPublicKey)>,
    /// Address of the Announce message, or nothing if the Subscriber is not
    /// registered to a channel instance.
    pub appinst: Option<Link>,
    /// Author's MSS public key, or nothing if the Subscriber is not registered
    /// to a channel instance.
    pub author_mss_pk: Option<MssPublicKey>,
    /// Author's NTRU public key, or nothing if the Author has no NTRU key pair.
    pub author_ntru_pk: Option<NtruPublicKey>,
    /// Link store.
    pub store: Store,
    /// Link generator.
    pub link_gen: LinkGen,
}

} // verus!
