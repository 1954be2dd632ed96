//! What becomes of a message that can be read, when the store takes it: the Subscriber
//! owes it success, whatever else it holds.
use vstd::prelude::*;
use crate::error::SubscriberError;
use crate::key_ring::KeyRing;
use crate::keys::MssPublicKey;
use crate::link::{ChannelLinkGenerator, Header, LinkStore};
use crate::message::{
    announce, change_key, keyload, signed_packet, tagged_packet, Opened, PreparsedMessage,
};
use crate::subscriber::SubscriberT;
use crate::tbits::Trytes;

verus! {

/// An announcement that can be read, of a channel not yet announced or of the own
/// one, binds the Subscriber to its link and gives it both of the Author's keys.
pub proof fn law_readable_announcement_takes_effect<Prng, Store, LinkGen, Ctx, Unwrap>(
    subscriber: &mut SubscriberT<Prng, Store, LinkGen>,
    preparsed: PreparsedMessage<Ctx>,
    info: Store::Info,
    unwrap: Unwrap,
    opened: Opened<Store::State, announce::ContentUnwrap>,
    result: Result<(), SubscriberError<Store::Error>>,
) where
    Store: LinkStore,
    LinkGen: ChannelLinkGenerator,
    Unwrap: FnOnce(&Header, Ctx, &Store) -> Result<
        Opened<Store::State, announce::ContentUnwrap>,
        Store::Error,
    >,

    requires
        call_ensures(
            SubscriberT::<Prng, Store, LinkGen>::handle_announcement::<Ctx, Unwrap>,
            (subscriber, preparsed, info, unwrap),
            result,
        ),
        old(subscriber)@.appinst matches Some(appinst)
            ==> appinst.base@ == preparsed.header.link.base@
            && appinst.rel@ == preparsed.header.link.rel@,
        forall|
            outcome: Result<Opened<Store::State, announce::ContentUnwrap>, Store::Error>,
        |
            #[trigger] call_ensures(
                unwrap,
                (&preparsed.header, preparsed.ctx, &old(subscriber)@.store),
                outcome,
            ) ==> outcome
                == Ok::<Opened<Store::State, announce::ContentUnwrap>, Store::Error>(opened),
        forall|failure: Store::Error| !#[trigger]
            Store::updated(
                old(subscriber)@.store,
                preparsed.header.link.rel@,
                opened.spongos,
                info,
                final(subscriber)@.store,
                Err(failure),
            ),
    ensures
        result is Ok,
        final(subscriber)@.appinst matches Some(appinst)
            && appinst.base@ == preparsed.header.link.base@
            && appinst.rel@ == preparsed.header.link.rel@,
        final(subscriber)@.author_mss_pk == Some(opened.content.mss_pk),
        final(subscriber)@.author_ntru_pk == opened.content.ntru_pk,
        old(subscriber)@.store.entries() matches Some(entries)
            ==> final(subscriber)@.store.entries()
            == Some(entries.insert(preparsed.header.link.rel@, (opened.spongos, info))),
        Store::updated(
            old(subscriber)@.store,
            preparsed.header.link.rel@,
            opened.spongos,
            info,
            final(subscriber)@.store,
            Ok(()),
        ),
{
}

/// A change of key of the own channel that can be read makes the new key the
/// Author's.
pub proof fn law_readable_change_key_takes_effect<Prng, Store, LinkGen, Ctx, Unwrap>(
    subscriber: &mut SubscriberT<Prng, Store, LinkGen>,
    preparsed: PreparsedMessage<Ctx>,
    info: Store::Info,
    unwrap: Unwrap,
    opened: Opened<Store::State, change_key::ContentUnwrap>,
    result: Result<(), SubscriberError<Store::Error>>,
) where
    Store: LinkStore,
    LinkGen: ChannelLinkGenerator,
    Unwrap: FnOnce(&Header, Ctx, &Store, &MssPublicKey) -> Result<
        Opened<Store::State, change_key::ContentUnwrap>,
        Store::Error,
    >,

    requires
        call_ensures(
            SubscriberT::<Prng, Store, LinkGen>::handle_change_key::<Ctx, Unwrap>,
            (subscriber, preparsed, info, unwrap),
            result,
        ),
        old(subscriber)@.appinst matches Some(appinst)
            && appinst.base@ == preparsed.header.link.base@,
        old(subscriber)@.author_mss_pk is Some,
        forall|
            outcome: Result<Opened<Store::State, change_key::ContentUnwrap>, Store::Error>,
        |
            #[trigger] call_ensures(
                unwrap,
                (
                    &preparsed.header,
                    preparsed.ctx,
                    &old(subscriber)@.store,
                    &old(subscriber)@.author_mss_pk->Some_0,
                ),
                outcome,
            ) ==> outcome
                == Ok::<Opened<Store::State, change_key::ContentUnwrap>, Store::Error>(opened),
        forall|failure: Store::Error| !#[trigger]
            Store::updated(
                old(subscriber)@.store,
                preparsed.header.link.rel@,
                opened.spongos,
                info,
                final(subscriber)@.store,
                Err(failure),
            ),
    ensures
        result is Ok,
        final(subscriber)@.author_mss_pk == Some(opened.content.mss_pk),
        old(subscriber)@.store.entries() matches Some(entries)
            ==> final(subscriber)@.store.entries()
            == Some(entries.insert(preparsed.header.link.rel@, (opened.spongos, info))),
        Store::updated(
            old(subscriber)@.store,
            preparsed.header.link.rel@,
            opened.spongos,
            info,
            final(subscriber)@.store,
            Ok(()),
        ),
{
}

/// A keyload of the own channel that can be read is in the store, whichever keys the
/// Subscriber has.
pub proof fn law_readable_keyload_takes_effect<Prng, Store, LinkGen, Ctx, Unwrap>(
    subscriber: &mut SubscriberT<Prng, Store, LinkGen>,
    preparsed: PreparsedMessage<Ctx>,
    info: Store::Info,
    unwrap: Unwrap,
    opened: Opened<Store::State, keyload::ContentUnwrap>,
    result: Result<(), SubscriberError<Store::Error>>,
) where
    Store: LinkStore,
    LinkGen: ChannelLinkGenerator,
    Unwrap: FnOnce(&Header, Ctx, &Store, KeyRing<Prng, Store, LinkGen>) -> Result<
        Opened<Store::State, keyload::ContentUnwrap>,
        Store::Error,
    >,

    requires
        call_ensures(
            SubscriberT::<Prng, Store, LinkGen>::handle_keyload::<Ctx, Unwrap>,
            (subscriber, preparsed, info, unwrap),
            result,
        ),
        old(subscriber)@.appinst matches Some(appinst)
            && appinst.base@ == preparsed.header.link.base@,
        forall|
            ring: KeyRing<Prng, Store, LinkGen>,
            outcome: Result<Opened<Store::State, keyload::ContentUnwrap>, Store::Error>,
        |
            ring.owner() == old(subscriber)@ && #[trigger] call_ensures(
                unwrap,
                (&preparsed.header, preparsed.ctx, &old(subscriber)@.store, ring),
                outcome,
            ) ==> outcome
                == Ok::<Opened<Store::State, keyload::ContentUnwrap>, Store::Error>(opened),
        forall|failure: Store::Error| !#[trigger]
            Store::updated(
                old(subscriber)@.store,
                preparsed.header.link.rel@,
                opened.spongos,
                info,
                final(subscriber)@.store,
                Err(failure),
            ),
    ensures
        result is Ok,
        old(subscriber)@.store.entries() matches Some(entries)
            ==> final(subscriber)@.store.entries()
            == Some(entries.insert(preparsed.header.link.rel@, (opened.spongos, info))),
        Store::updated(
            old(subscriber)@.store,
            preparsed.header.link.rel@,
            opened.spongos,
            info,
            final(subscriber)@.store,
            Ok(()),
        ),
{
}

/// A signed packet of the own channel that can be read gives its payloads, each in
/// its place, if the Author signed it, and is reported as badly signed if not.
pub proof fn law_readable_signed_packet_takes_effect<Prng, Store, LinkGen, Ctx, Unwrap>(
    subscriber: &mut SubscriberT<Prng, Store, LinkGen>,
    preparsed: PreparsedMessage<Ctx>,
    info: Store::Info,
    unwrap: Unwrap,
    opened: Opened<Store::State, signed_packet::ContentUnwrap>,
    result: Result<(Trytes, Trytes), SubscriberError<Store::Error>>,
) where
    Store: LinkStore,
    LinkGen: ChannelLinkGenerator,
    Unwrap: FnOnce(&Header, Ctx, &Store) -> Result<
        Opened<Store::State, signed_packet::ContentUnwrap>,
        Store::Error,
    >,

    requires
        call_ensures(
            SubscriberT::<Prng, Store, LinkGen>::handle_signed_packet::<Ctx, Unwrap>,
            (subscriber, preparsed, info, unwrap),
            result,
        ),
        old(subscriber)@.appinst matches Some(appinst)
            && appinst.base@ == preparsed.header.link.base@,
        old(subscriber)@.author_mss_pk is Some,
        forall|
            outcome: Result<Opened<Store::State, signed_packet::ContentUnwrap>, Store::Error>,
        |
            #[trigger] call_ensures(
                unwrap,
                (&preparsed.header, preparsed.ctx, &old(subscriber)@.store),
                outcome,
            ) ==> outcome
                == Ok::<Opened<Store::State, signed_packet::ContentUnwrap>, Store::Error>(opened),
        forall|failure: Store::Error| !#[trigger]
            Store::updated(
                old(subscriber)@.store,
                preparsed.header.link.rel@,
                opened.spongos,
                info,
                final(subscriber)@.store,
                Err(failure),
            ),
    ensures
        opened.content.mss_pk.pk@ == old(subscriber)@.author_mss_pk->Some_0.pk@ ==> result == Ok::<
            (Trytes, Trytes),
            SubscriberError<Store::Error>,
        >((opened.content.public_payload, opened.content.masked_payload)),
        opened.content.mss_pk.pk@ != old(subscriber)@.author_mss_pk->Some_0.pk@ ==> result == Err::<
            (Trytes, Trytes),
            SubscriberError<Store::Error>,
        >(SubscriberError::BadSignature),
        old(subscriber)@.store.entries() matches Some(entries)
            ==> final(subscriber)@.store.entries()
            == Some(entries.insert(preparsed.header.link.rel@, (opened.spongos, info))),
        Store::updated(
            old(subscriber)@.store,
            preparsed.header.link.rel@,
            opened.spongos,
            info,
            final(subscriber)@.store,
            Ok(()),
        ),
{
}

/// A tagged packet of the own channel that can be read gives its payloads, each in
/// its place.
pub proof fn law_readable_tagged_packet_takes_effect<Prng, Store, LinkGen, Ctx, Unwrap>(
    subscriber: &mut SubscriberT<Prng, Store, LinkGen>,
    preparsed: PreparsedMessage<Ctx>,
    info: Store::Info,
    unwrap: Unwrap,
    opened: Opened<Store::State, tagged_packet::ContentUnwrap>,
    result: Result<(Trytes, Trytes), SubscriberError<Store::Error>>,
) where
    Store: LinkStore,
    LinkGen: ChannelLinkGenerator,
    Unwrap: FnOnce(&Header, Ctx, &Store) -> Result<
        Opened<Store::State, tagged_packet::ContentUnwrap>,
        Store::Error,
    >,

    requires
        call_ensures(
            SubscriberT::<Prng, Store, LinkGen>::handle_tagged_packet::<Ctx, Unwrap>,
            (subscriber, preparsed, info, unwrap),
            result,
        ),
        old(subscriber)@.appinst matches Some(appinst)
            && appinst.base@ == preparsed.header.link.base@,
        forall|
            outcome: Result<Opened<Store::State, tagged_packet::ContentUnwrap>, Store::Error>,
        |
            #[trigger] call_ensures(
                unwrap,
                (&preparsed.header, preparsed.ctx, &old(subscriber)@.store),
                outcome,
            ) ==> outcome
                == Ok::<Opened<Store::State, tagged_packet::ContentUnwrap>, Store::Error>(opened),
        forall|failure: Store::Error| !#[trigger]
            Store::updated(
                old(subscriber)@.store,
                preparsed.header.link.rel@,
                opened.spongos,
                info,
                final(subscriber)@.store,
                Err(failure),
            ),
    ensures
        result == Ok::<(Trytes, Trytes), SubscriberError<Store::Error>>(
            (opened.content.public_payload, opened.content.masked_payload),
        ),
        old(subscriber)@.store.entries() matches Some(entries)
            ==> final(subscriber)@.store.entries()
            == Some(entries.insert(preparsed.header.link.rel@, (opened.spongos, info))),
        Store::updated(
            old(subscriber)@.store,
            preparsed.header.link.rel@,
            opened.spongos,
            info,
            final(subscriber)@.store,
            Ok(()),
        ),
{
}

/// Handling an announcement keeps this of a Subscriber: it knows the Author's signing
/// key if and only if it is bound to a channel, and no NTRU key of an Author unless
/// it is.
pub proof fn law_handle_announcement_knows_author_when_bound<Prng, Store, LinkGen, Ctx, Unwrap>(
    subscriber: &mut SubscriberT<Prng, Store, LinkGen>,
    preparsed: PreparsedMessage<Ctx>,
    info: Store::Info,
    unwrap: Unwrap,
    result: Result<(), SubscriberError<Store::Error>>,
) where
    Store: LinkStore,
    LinkGen: ChannelLinkGenerator,
    Unwrap: FnOnce(&Header, Ctx, &Store) -> Result<
        Opened<Store::State, announce::ContentUnwrap>,
        Store::Error,
    >,

    requires
        call_ensures(
            SubscriberT::<Prng, Store, LinkGen>::handle_announcement::<Ctx, Unwrap>,
            (subscriber, preparsed, info, unwrap),
            result,
        ),
        old(subscriber)@.appinst is Some <==> old(subscriber)@.author_mss_pk is Some,
        old(subscriber)@.author_ntru_pk is Some ==> old(subscriber)@.appinst is Some,
    ensures
        final(subscriber)@.appinst is Some <==> final(subscriber)@.author_mss_pk is Some,
        final(subscriber)@.author_ntru_pk is Some ==> final(subscriber)@.appinst is Some,
        old(subscriber)@.appinst matches Some(before)
            ==> final(subscriber)@.appinst matches Some(after)
            && after.base@ == before.base@ && after.rel@ == before.rel@,
{
}

/// Handling a change of key keeps this of a Subscriber: it knows the Author's signing
/// key if and only if it is bound to a channel, and no NTRU key of an Author unless
/// it is.
pub proof fn law_handle_change_key_knows_author_when_bound<Prng, Store, LinkGen, Ctx, Unwrap>(
    subscriber: &mut SubscriberT<Prng, Store, LinkGen>,
    preparsed: PreparsedMessage<Ctx>,
    info: Store::Info,
    unwrap: Unwrap,
    result: Result<(), SubscriberError<Store::Error>>,
) where
    Store: LinkStore,
    LinkGen: ChannelLinkGenerator,
    Unwrap: FnOnce(&Header, Ctx, &Store, &MssPublicKey) -> Result<
        Opened<Store::State, change_key::ContentUnwrap>,
        Store::Error,
    >,

    requires
        call_ensures(
            SubscriberT::<Prng, Store, LinkGen>::handle_change_key::<Ctx, Unwrap>,
            (subscriber, preparsed, info, unwrap),
            result,
        ),
        old(subscriber)@.appinst is Some <==> old(subscriber)@.author_mss_pk is Some,
        old(subscriber)@.author_ntru_pk is Some ==> old(subscriber)@.appinst is Some,
    ensures
        final(subscriber)@.appinst is Some <==> final(subscriber)@.author_mss_pk is Some,
        final(subscriber)@.author_ntru_pk is Some ==> final(subscriber)@.appinst is Some,
        old(subscriber)@.appinst matches Some(before)
            ==> final(subscriber)@.appinst matches Some(after)
            && after.base@ == before.base@ && after.rel@ == before.rel@,
{
}

} // verus!
