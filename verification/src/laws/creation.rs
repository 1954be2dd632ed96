//! What a new Subscriber holds, what is kept of one that is stored, and which keys
//! are found in it.
use vstd::prelude::*;
use crate::key_ring::KeyRing;
use crate::keys::{NtruPkid, NtruPrivateKey, NtruPublicKey, Psk, PskId};
use crate::link::{ChannelLinkGenerator, LinkStore};
use crate::state::SubscriberState;
use crate::subscriber::SubscriberT;
use crate::tbits::Tbits;

verus! {

/// A new Subscriber holds the store, the link generator and the PRNG that it was
/// given, no pre-shared key, no channel and no key of an Author. It has a key pair if
/// and only if one was asked for, and that one was generated from the PRNG and the
/// text `NTRUNONCE` followed by the nonce.
pub proof fn law_gen_makes_unbound_subscriber<Prng, Store, LinkGen, Encode, GenKeypair>(
    store: Store,
    link_gen: LinkGen,
    prng: Prng,
    nonce: Tbits,
    with_ntru: bool,
    encode: Encode,
    gen_keypair: GenKeypair,
    subscriber: SubscriberT<Prng, Store, LinkGen>,
) where
    Store: LinkStore,
    LinkGen: ChannelLinkGenerator,
    Encode: FnOnce(&str) -> Tbits,
    GenKeypair: FnOnce(&Prng, &Tbits) -> (NtruPrivateKey, NtruPublicKey),

    requires
        call_ensures(
            SubscriberT::<Prng, Store, LinkGen>::gen::<Encode, GenKeypair>,
            (store, link_gen, prng, &nonce, with_ntru, encode, gen_keypair),
            subscriber,
        ),
    ensures
        subscriber@.store == store,
        subscriber@.link_gen == link_gen,
        subscriber@.prng == prng,
        subscriber@.opt_psk is None,
        subscriber@.appinst is None,
        subscriber@.author_mss_pk is None,
        subscriber@.author_ntru_pk is None,
        subscriber@.opt_ntru is Some <==> with_ntru,
        subscriber@.opt_ntru matches Some(key_pair) ==> exists|prefix: Tbits, ntru_nonce: Tbits|
            #[trigger] call_ensures(encode, ("NTRUNONCE",), prefix) && ntru_nonce.words@
                == prefix.words@ + nonce.words@ && #[trigger] call_ensures(
                gen_keypair,
                (&prng, &ntru_nonce),
                key_pair,
            ),
{
    if with_ntru {
        let (prefix, ntru_nonce) = choose|prefix: Tbits, ntru_nonce: Tbits|
            #[trigger] call_ensures(encode, ("NTRUNONCE",), prefix) && ntru_nonce@ == prefix@
                + nonce@ && #[trigger] call_ensures(
                gen_keypair,
                (&prng, &ntru_nonce),
                subscriber@.opt_ntru->Some_0,
            );
        assert(ntru_nonce.words@ == prefix.words@ + nonce.words@);
    }
}

/// A Subscriber without a key pair can always be made, and one with a key pair
/// whenever both functions can be called.
pub proof fn law_gen_is_allowed<Prng, Store, LinkGen, Encode, GenKeypair>(
    store: Store,
    link_gen: LinkGen,
    prng: Prng,
    nonce: Tbits,
    with_ntru: bool,
    encode: Encode,
    gen_keypair: GenKeypair,
) where
    Store: LinkStore,
    LinkGen: ChannelLinkGenerator,
    Encode: FnOnce(&str) -> Tbits,
    GenKeypair: FnOnce(&Prng, &Tbits) -> (NtruPrivateKey, NtruPublicKey),

    requires
        with_ntru ==> call_requires(encode, ("NTRUNONCE",)),
        with_ntru ==> forall|ntru_nonce: Tbits| #[trigger]
            call_requires(gen_keypair, (&prng, &ntru_nonce)),
    ensures
        call_requires(
            SubscriberT::<Prng, Store, LinkGen>::gen::<Encode, GenKeypair>,
            (store, link_gen, prng, &nonce, with_ntru, encode, gen_keypair),
        ),
{
}

/// A Subscriber made with a key pair, or without one, holds it and what else it was
/// given, and nothing more.
pub proof fn law_with_key_pair_makes_unbound_subscriber<
    Prng,
    Store: LinkStore,
    LinkGen: ChannelLinkGenerator,
>(
    store: Store,
    link_gen: LinkGen,
    prng: Prng,
    opt_ntru: Option<(NtruPrivateKey, NtruPublicKey)>,
    subscriber: SubscriberT<Prng, Store, LinkGen>,
)
    requires
        call_ensures(
            SubscriberT::<Prng, Store, LinkGen>::with_key_pair,
            (store, link_gen, prng, opt_ntru),
            subscriber,
        ),
    ensures
        subscriber@.store == store,
        subscriber@.link_gen == link_gen,
        subscriber@.prng == prng,
        subscriber@.opt_ntru == opt_ntru,
        subscriber@.opt_psk is None,
        subscriber@.appinst is None,
        subscriber@.author_mss_pk is None,
        subscriber@.author_ntru_pk is None,
        call_requires(
            SubscriberT::<Prng, Store, LinkGen>::with_key_pair,
            (store, link_gen, prng, opt_ntru),
        ),
{
}

/// A Subscriber that is stored and restored is the same one: reading its state,
/// taking it out and putting it back in lose nothing.
pub proof fn law_stored_subscriber_is_restored<
    Prng,
    Store: LinkStore,
    LinkGen: ChannelLinkGenerator,
>(
    stored: SubscriberState<Prng, Store, LinkGen>,
    subscriber: SubscriberT<Prng, Store, LinkGen>,
    read: &SubscriberState<Prng, Store, LinkGen>,
    taken: SubscriberState<Prng, Store, LinkGen>,
)
    requires
        call_ensures(SubscriberT::<Prng, Store, LinkGen>::from_state, (stored,), subscriber),
        call_ensures(SubscriberT::<Prng, Store, LinkGen>::state, (&subscriber,), read),
        call_ensures(SubscriberT::<Prng, Store, LinkGen>::into_state, (subscriber,), taken),
    ensures
        *read == stored,
        taken == stored,
        subscriber@ == stored,
        call_requires(SubscriberT::<Prng, Store, LinkGen>::from_state, (stored,)),
        call_requires(SubscriberT::<Prng, Store, LinkGen>::state, (&subscriber,)),
        call_requires(SubscriberT::<Prng, Store, LinkGen>::into_state, (subscriber,)),
{
}

/// The pre-shared key is found by its identifier, and by no other.
pub proof fn law_psk_is_found_by_its_id<Prng, Store: LinkStore, LinkGen: ChannelLinkGenerator>(
    subscriber: SubscriberT<Prng, Store, LinkGen>,
    pskid: PskId,
    found: Option<&Psk>,
)
    requires
        call_ensures(
            SubscriberT::<Prng, Store, LinkGen>::lookup_psk,
            (&subscriber, &pskid),
            found,
        ),
    ensures
        forall|psk: Psk|
            found == Some(&psk) <==> (subscriber@.opt_psk matches Some(own) && own.0.words@
                == pskid.words@ && own.1 == psk),
        call_requires(SubscriberT::<Prng, Store, LinkGen>::lookup_psk, (&subscriber, &pskid)),
{
}

/// The NTRU private key is found by the identifier of its public key, and by no
/// other.
pub proof fn law_ntru_sk_is_found_by_its_pkid<
    Prng,
    Store: LinkStore,
    LinkGen: ChannelLinkGenerator,
>(
    subscriber: SubscriberT<Prng, Store, LinkGen>,
    ntru_pkid: NtruPkid,
    found: Option<&NtruPrivateKey>,
)
    requires
        call_ensures(
            SubscriberT::<Prng, Store, LinkGen>::lookup_ntru_sk,
            (&subscriber, &ntru_pkid),
            found,
        ),
    ensures
        forall|ntru_sk: NtruPrivateKey|
            found == Some(&ntru_sk) <==> (subscriber@.opt_ntru matches Some(own)
                && own.1.pkid.words@ == ntru_pkid.words@ && own.0 == ntru_sk),
        call_requires(
            SubscriberT::<Prng, Store, LinkGen>::lookup_ntru_sk,
            (&subscriber, &ntru_pkid),
        ),
{
}

/// A key ring is that of the Subscriber it was made for.
pub proof fn law_key_ring_is_its_owners<Prng, Store: LinkStore, LinkGen: ChannelLinkGenerator>(
    subscriber: SubscriberT<Prng, Store, LinkGen>,
    ring: KeyRing<Prng, Store, LinkGen>,
)
    requires
        call_ensures(KeyRing::<Prng, Store, LinkGen>::new, (&subscriber,), ring),
    ensures
        ring.owner() == subscriber@,
        call_requires(KeyRing::<Prng, Store, LinkGen>::new, (&subscriber,)),
{
}

/// A key ring finds the keys of its owner by their identifiers, and no others.
pub proof fn law_key_ring_finds_owners_keys<
    Prng,
    Store: LinkStore,
    LinkGen: ChannelLinkGenerator,
>(
    ring: KeyRing<Prng, Store, LinkGen>,
    pskid: PskId,
    ntru_pkid: NtruPkid,
    found_psk: Option<&Psk>,
    found_sk: Option<&NtruPrivateKey>,
)
    requires
        call_ensures(
            KeyRing::<Prng, Store, LinkGen>::lookup_psk,
            (&ring, &pskid),
            found_psk,
        ),
        call_ensures(
            KeyRing::<Prng, Store, LinkGen>::lookup_ntru_sk,
            (&ring, &ntru_pkid),
            found_sk,
        ),
    ensures
        forall|psk: Psk|
            found_psk == Some(&psk) <==> (ring.owner().opt_psk matches Some(own) && own.0.words@
                == pskid.words@ && own.1 == psk),
        forall|ntru_sk: NtruPrivateKey|
            found_sk == Some(&ntru_sk) <==> (ring.owner().opt_ntru matches Some(own)
                && own.1.pkid.words@ == ntru_pkid.words@ && own.0 == ntru_sk),
        call_requires(KeyRing::<Prng, Store, LinkGen>::lookup_psk, (&ring, &pskid)),
        call_requires(KeyRing::<Prng, Store, LinkGen>::lookup_ntru_sk, (&ring, &ntru_pkid)),
{
}

} // verus!
