//! What the message layer sees of the Subscriber while it unwraps a keyload.
use vstd::prelude::*;
use crate::keys::{NtruPkid, NtruPrivateKey, Psk, PskId};
use crate::link::{ChannelLinkGenerator, LinkStore};
use crate::state::SubscriberState;
use crate::subscriber::SubscriberT;

verus! {

/// The keys of a Subscriber, to be found by their identifiers and in no other
/// way: the pre-shared key with `lookup_psk`, the NTRU private key with
/// `lookup_ntru_sk`.
pub struct KeyRing<'b, Prng, Store, LinkGen> {
    owner: &'b SubscriberT<Prng, Store, LinkGen>,
}

impl<'b, Prng, Store, LinkGen> KeyRing<'b, Prng, Store, LinkGen> where
    Store: LinkStore,
    LinkGen: ChannelLinkGenerator,
 {
    /// The Subscriber whose keys these are.
    pub closed spec fn owner(&self) -> SubscriberState<Prng, Store, LinkGen> {
        self.owner@
    }

    /// The keys of the given Subscriber.
    pub fn new(owner: &'b SubscriberT<Prng, Store, LinkGen>) -> (ring: Self)
        ensures
            ring.owner() == owner@,
    {
        KeyRing { owner }
    }

    /// The pre-shared key with the given identifier, if it is the owner's.
    pub fn lookup_psk(&self, pskid: &PskId) -> (found: Option<&'b Psk>)
        ensures
            found == self.owner().psk_for(pskid@),
    {
        self.owner.lookup_psk(pskid)
    }

    /// The private key for the NTRU public key with the given identifier, if it
    /// is the owner's.
    pub fn lookup_ntru_sk(&self, ntru_pkid: &NtruPkid) -> (found: Option<&'b NtruPrivateKey>)
        ensures
            found == self.owner().ntru_sk_for(ntru_pkid@),
    {
        self.owner.lookup_ntru_sk(ntru_pkid)
    }
}

} // verus!
