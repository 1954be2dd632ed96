//! What receiving does, of each operation: when a message is refused, what becomes
//! of one that is not, and what stays as it was. All of it is said of the message,
//! of what `unwrap` was given and answered, and of what the store did.
use vstd::prelude::*;
use crate::error::SubscriberError;
use crate::key_ring::KeyRing;
use crate::keys::MssPublicKey;
use crate::link::{ChannelLinkGenerator, Header, LinkStore};
use crate::message::{
    announce, change_key, keyload, signed_packet, tagged_packet, Opened, PreparsedMessage,
    UnwrappedMessage,
};
use crate::subscriber::SubscriberT;
use crate::tbits::Trytes;

verus! {

/// An announcement is refused exactly on these grounds, and then nothing changes.
pub proof fn law_handle_announcement_refusals<Prng, Store, LinkGen, Ctx, Unwrap>(
    subscriber: &mut SubscriberT<Prng, Store, LinkGen>,
    preparsed: PreparsedMessage<Ctx>,
    info: Store::Info,
    unwrap: Unwrap,
    result: Result<(), SubscriberError<Store::Error>>,
) where
    Store: LinkStore,
    LinkGen: ChannelLinkGenerator,
    Unwrap: FnOnce(&Header, Ctx, &Store) -> Result<
        Opened<Store::State, announce::ContentUnwrap>,
        Store::Error,
    >,

    requires
        call_ensures(
            SubscriberT::<Prng, Store, LinkGen>::handle_announcement::<Ctx, Unwrap>,
            (subscriber, preparsed, info, unwrap),
            result,
        ),
    ensures
        (result matches Err(error) && error is AlreadyRegistered)
            <==> (old(subscriber)@.appinst matches Some(appinst)
            && (appinst.base@ != preparsed.header.link.base@
            || appinst.rel@ != preparsed.header.link.rel@)),
        result matches Err(SubscriberError::AlreadyRegistered { announced, registered })
            ==> announced@ == preparsed.header.link.base@
            && registered@ == old(subscriber)@.appinst->Some_0.base@,
        result matches Err(error) ==> error is AlreadyRegistered || error is Failed,
        (result matches Err(error) && !(error is Failed))
            ==> final(subscriber)@ == old(subscriber)@,
{
}

/// An announcement that is not refused is opened from its own header and content over
/// the store. Once it is recorded, under its own link and with its info, the
/// Subscriber is bound to that link and knows the Author's keys that it gave. Nothing
/// but a failure of `unwrap` or of the store keeps it from that, and then the channel
/// and the keys stay.
pub proof fn law_handle_announcement_answers<Prng, Store, LinkGen, Ctx, Unwrap>(
    subscriber: &mut SubscriberT<Prng, Store, LinkGen>,
    preparsed: PreparsedMessage<Ctx>,
    info: Store::Info,
    unwrap: Unwrap,
    result: Result<(), SubscriberError<Store::Error>>,
) where
    Store: LinkStore,
    LinkGen: ChannelLinkGenerator,
    Unwrap: FnOnce(&Header, Ctx, &Store) -> Result<
        Opened<Store::State, announce::ContentUnwrap>,
        Store::Error,
    >,

    requires
        call_ensures(
            SubscriberT::<Prng, Store, LinkGen>::handle_announcement::<Ctx, Unwrap>,
            (subscriber, preparsed, info, unwrap),
            result,
        ),
        old(subscriber)@.appinst matches Some(appinst)
            ==> appinst.base@ == preparsed.header.link.base@
            && appinst.rel@ == preparsed.header.link.rel@,
    ensures
        exists|
            outcome: Result<Opened<Store::State, announce::ContentUnwrap>, Store::Error>,
        | {
            &&& #[trigger] call_ensures(
                unwrap,
                (&preparsed.header, preparsed.ctx, &old(subscriber)@.store),
                outcome,
            )
            &&& match outcome {
                Err(failure) => result == Err::<(), _>(SubscriberError::Failed(failure))
                    && final(subscriber)@ == old(subscriber)@,
                Ok(opened) => match result {
                    Ok(_) => {
                        &&& Store::updated(
                            old(subscriber)@.store,
                            preparsed.header.link.rel@,
                            opened.spongos,
                            info,
                            final(subscriber)@.store,
                            Ok(()),
                        )
                        &&& old(subscriber)@.store.entries() matches Some(entries)
                            ==> final(subscriber)@.store.entries() == Some(
                            entries.insert(preparsed.header.link.rel@, (opened.spongos, info)),
                        )
                        &&& final(subscriber)@.appinst matches Some(appinst)
                            && appinst.base@ == preparsed.header.link.base@
                            && appinst.rel@ == preparsed.header.link.rel@
                        &&& final(subscriber)@.author_mss_pk == Some(opened.content.mss_pk)
                        &&& final(subscriber)@.author_ntru_pk == opened.content.ntru_pk
                    },
                    Err(error) => {
                        &&& error matches SubscriberError::Failed(failure) && Store::updated(
                            old(subscriber)@.store,
                            preparsed.header.link.rel@,
                            opened.spongos,
                            info,
                            final(subscriber)@.store,
                            Err(failure),
                        )
                        &&& final(subscriber)@.appinst == old(subscriber)@.appinst
                        &&& final(subscriber)@.author_mss_pk == old(subscriber)@.author_mss_pk
                        &&& final(subscriber)@.author_ntru_pk == old(subscriber)@.author_ntru_pk
                    },
                },
            }
        },
{
}

/// Handling an announcement leaves the rest of the Subscriber as it was.
pub proof fn law_handle_announcement_keeps<Prng, Store, LinkGen, Ctx, Unwrap>(
    subscriber: &mut SubscriberT<Prng, Store, LinkGen>,
    preparsed: PreparsedMessage<Ctx>,
    info: Store::Info,
    unwrap: Unwrap,
    result: Result<(), SubscriberError<Store::Error>>,
) where
    Store: LinkStore,
    LinkGen: ChannelLinkGenerator,
    Unwrap: FnOnce(&Header, Ctx, &Store) -> Result<
        Opened<Store::State, announce::ContentUnwrap>,
        Store::Error,
    >,

    requires
        call_ensures(
            SubscriberT::<Prng, Store, LinkGen>::handle_announcement::<Ctx, Unwrap>,
            (subscriber, preparsed, info, unwrap),
            result,
        ),
    ensures
        final(subscriber)@.prng == old(subscriber)@.prng,
        final(subscriber)@.opt_psk == old(subscriber)@.opt_psk,
        final(subscriber)@.opt_ntru == old(subscriber)@.opt_ntru,
        final(subscriber)@.link_gen == old(subscriber)@.link_gen,
{
}

/// Any Subscriber can be asked to handle an announcement. The function need only be
/// fit to be called on a message that is not refused.
pub proof fn law_handle_announcement_is_allowed<Prng, Store, LinkGen, Ctx, Unwrap>(
    subscriber: &mut SubscriberT<Prng, Store, LinkGen>,
    preparsed: PreparsedMessage<Ctx>,
    info: Store::Info,
    unwrap: Unwrap,
) where
    Store: LinkStore,
    LinkGen: ChannelLinkGenerator,
    Unwrap: FnOnce(&Header, Ctx, &Store) -> Result<
        Opened<Store::State, announce::ContentUnwrap>,
        Store::Error,
    >,

    requires
        (old(subscriber)@.appinst matches Some(appinst)
            ==> appinst.base@ == preparsed.header.link.base@
            && appinst.rel@ == preparsed.header.link.rel@) ==> call_requires(
            unwrap,
            (&preparsed.header, preparsed.ctx, &old(subscriber)@.store),
        ),
    ensures
        call_requires(
            SubscriberT::<Prng, Store, LinkGen>::handle_announcement::<Ctx, Unwrap>,
            (subscriber, preparsed, info, unwrap),
        ),
{
}

/// An announcement is not unwrapped exactly on these grounds.
pub proof fn law_unwrap_announcement_refusals<Prng, Store, LinkGen, Ctx, Unwrap>(
    subscriber: SubscriberT<Prng, Store, LinkGen>,
    preparsed: PreparsedMessage<Ctx>,
    unwrap: Unwrap,
    result: Result<
        UnwrappedMessage<Store::State, announce::ContentUnwrap>,
        SubscriberError<Store::Error>,
    >,
) where
    Store: LinkStore,
    LinkGen: ChannelLinkGenerator,
    Unwrap: FnOnce(&Header, Ctx, &Store) -> Result<
        Opened<Store::State, announce::ContentUnwrap>,
        Store::Error,
    >,

    requires
        call_ensures(
            SubscriberT::<Prng, Store, LinkGen>::unwrap_announcement::<Ctx, Unwrap>,
            (&subscriber, preparsed, unwrap),
            result,
        ),
    ensures
        (result matches Err(error) && error is AlreadyRegistered)
            <==> (subscriber@.appinst matches Some(appinst)
            && (appinst.base@ != preparsed.header.link.base@
            || appinst.rel@ != preparsed.header.link.rel@)),
        result matches Err(SubscriberError::AlreadyRegistered { announced, registered })
            ==> announced@ == preparsed.header.link.base@
            && registered@ == subscriber@.appinst->Some_0.base@,
        result matches Err(error) ==> error is AlreadyRegistered || error is Failed,
{
}

/// Unwrapping an announcement that is not refused gives what `unwrap` opened, at the
/// link of the message, or the failure of `unwrap`.
pub proof fn law_unwrap_announcement_answers<Prng, Store, LinkGen, Ctx, Unwrap>(
    subscriber: SubscriberT<Prng, Store, LinkGen>,
    preparsed: PreparsedMessage<Ctx>,
    unwrap: Unwrap,
    result: Result<
        UnwrappedMessage<Store::State, announce::ContentUnwrap>,
        SubscriberError<Store::Error>,
    >,
) where
    Store: LinkStore,
    LinkGen: ChannelLinkGenerator,
    Unwrap: FnOnce(&Header, Ctx, &Store) -> Result<
        Opened<Store::State, announce::ContentUnwrap>,
        Store::Error,
    >,

    requires
        call_ensures(
            SubscriberT::<Prng, Store, LinkGen>::unwrap_announcement::<Ctx, Unwrap>,
            (&subscriber, preparsed, unwrap),
            result,
        ),
        subscriber@.appinst matches Some(appinst)
            ==> appinst.base@ == preparsed.header.link.base@
            && appinst.rel@ == preparsed.header.link.rel@,
    ensures
        exists|
            outcome: Result<Opened<Store::State, announce::ContentUnwrap>, Store::Error>,
        | {
            &&& #[trigger] call_ensures(
                unwrap,
                (&preparsed.header, preparsed.ctx, &subscriber@.store),
                outcome,
            )
            &&& match outcome {
                Err(failure) => result matches Err(SubscriberError::Failed(reported)) && reported
                    == failure,
                Ok(opened) => result matches Ok(unwrapped)
                    && unwrapped.link == preparsed.header.link
                    && unwrapped.spongos == opened.spongos && unwrapped.content == opened.content,
            }
        },
{
}

/// Any Subscriber can be asked to unwrap an announcement. The function need only be
/// fit to be called on a message that is not refused.
pub proof fn law_unwrap_announcement_is_allowed<Prng, Store, LinkGen, Ctx, Unwrap>(
    subscriber: SubscriberT<Prng, Store, LinkGen>,
    preparsed: PreparsedMessage<Ctx>,
    unwrap: Unwrap,
) where
    Store: LinkStore,
    LinkGen: ChannelLinkGenerator,
    Unwrap: FnOnce(&Header, Ctx, &Store) -> Result<
        Opened<Store::State, announce::ContentUnwrap>,
        Store::Error,
    >,

    requires
        (subscriber@.appinst matches Some(appinst)
            ==> appinst.base@ == preparsed.header.link.base@
            && appinst.rel@ == preparsed.header.link.rel@) ==> call_requires(
            unwrap,
            (&preparsed.header, preparsed.ctx, &subscriber@.store),
        ),
    ensures
        call_requires(
            SubscriberT::<Prng, Store, LinkGen>::unwrap_announcement::<Ctx, Unwrap>,
            (&subscriber, preparsed, unwrap),
        ),
{
}

/// Committing an announcement records it under its link, with its state and info, and
/// does what handling it does; nothing but a failure of the store keeps it from that.
pub proof fn law_commit_announcement_answers<Prng, Store: LinkStore, LinkGen: ChannelLinkGenerator>(
    subscriber: &mut SubscriberT<Prng, Store, LinkGen>,
    unwrapped: UnwrappedMessage<Store::State, announce::ContentUnwrap>,
    info: Store::Info,
    result: Result<(), SubscriberError<Store::Error>>,
)
    requires
        call_ensures(
            SubscriberT::<Prng, Store, LinkGen>::commit_announcement,
            (subscriber, unwrapped, info),
            result,
        ),
    ensures
        match result {
            Ok(_) => {
                &&& Store::updated(
                    old(subscriber)@.store,
                    unwrapped.link.rel@,
                    unwrapped.spongos,
                    info,
                    final(subscriber)@.store,
                    Ok(()),
                )
                &&& old(subscriber)@.store.entries() matches Some(entries)
                    ==> final(subscriber)@.store.entries() == Some(
                    entries.insert(unwrapped.link.rel@, (unwrapped.spongos, info)),
                )
                &&& final(subscriber)@.appinst matches Some(appinst)
                    && appinst.base@ == unwrapped.link.base@
                    && appinst.rel@ == unwrapped.link.rel@
                &&& final(subscriber)@.author_mss_pk == Some(unwrapped.content.mss_pk)
                &&& final(subscriber)@.author_ntru_pk == unwrapped.content.ntru_pk
            },
            Err(error) => {
                &&& error matches SubscriberError::Failed(failure) && Store::updated(
                    old(subscriber)@.store,
                    unwrapped.link.rel@,
                    unwrapped.spongos,
                    info,
                    final(subscriber)@.store,
                    Err(failure),
                )
                &&& final(subscriber)@.appinst == old(subscriber)@.appinst
                &&& final(subscriber)@.author_mss_pk == old(subscriber)@.author_mss_pk
                &&& final(subscriber)@.author_ntru_pk == old(subscriber)@.author_ntru_pk
            },
        },
        final(subscriber)@.prng == old(subscriber)@.prng,
        final(subscriber)@.opt_psk == old(subscriber)@.opt_psk,
        final(subscriber)@.opt_ntru == old(subscriber)@.opt_ntru,
        final(subscriber)@.link_gen == old(subscriber)@.link_gen,
{
}

/// An announcement that is not refused can be committed.
pub proof fn law_commit_announcement_is_allowed<
    Prng,
    Store: LinkStore,
    LinkGen: ChannelLinkGenerator,
>(
    subscriber: &mut SubscriberT<Prng, Store, LinkGen>,
    unwrapped: UnwrappedMessage<Store::State, announce::ContentUnwrap>,
    info: Store::Info,
)
    requires
        old(subscriber)@.appinst matches Some(appinst)
            ==> appinst.base@ == unwrapped.link.base@
            && appinst.rel@ == unwrapped.link.rel@,
    ensures
        call_requires(
            SubscriberT::<Prng, Store, LinkGen>::commit_announcement,
            (subscriber, unwrapped, info),
        ),
{
}

/// A change of key is refused exactly on these grounds, and then nothing changes.
pub proof fn law_handle_change_key_refusals<Prng, Store, LinkGen, Ctx, Unwrap>(
    subscriber: &mut SubscriberT<Prng, Store, LinkGen>,
    preparsed: PreparsedMessage<Ctx>,
    info: Store::Info,
    unwrap: Unwrap,
    result: Result<(), SubscriberError<Store::Error>>,
) where
    Store: LinkStore,
    LinkGen: ChannelLinkGenerator,
    Unwrap: FnOnce(&Header, Ctx, &Store, &MssPublicKey) -> Result<
        Opened<Store::State, change_key::ContentUnwrap>,
        Store::Error,
    >,

    requires
        call_ensures(
            SubscriberT::<Prng, Store, LinkGen>::handle_change_key::<Ctx, Unwrap>,
            (subscriber, preparsed, info, unwrap),
            result,
        ),
    ensures
        (result matches Err(error) && error is NoAuthorMssPublicKey)
            <==> old(subscriber)@.author_mss_pk is None,
        (result matches Err(error) && error is NotSubscribed)
            <==> (old(subscriber)@.author_mss_pk is Some && old(subscriber)@.appinst is None),
        (result matches Err(error) && error is BadInstance)
            <==> (old(subscriber)@.author_mss_pk is Some
            && (old(subscriber)@.appinst matches Some(appinst)
            && appinst.base@ != preparsed.header.link.base@)),
        result matches Err(error) ==> error is NoAuthorMssPublicKey || error is NotSubscribed
            || error is BadInstance || error is Failed,
        (result matches Err(error) && !(error is Failed))
            ==> final(subscriber)@ == old(subscriber)@,
{
}

/// A change of key that is not refused is opened under the Author's current key. Once
/// it is recorded, the new key is the Author's, whatever else the Subscriber holds.
/// Nothing but a failure of `unwrap` or of the store keeps it from that, and then the
/// key stays.
pub proof fn law_handle_change_key_answers<Prng, Store, LinkGen, Ctx, Unwrap>(
    subscriber: &mut SubscriberT<Prng, Store, LinkGen>,
    preparsed: PreparsedMessage<Ctx>,
    info: Store::Info,
    unwrap: Unwrap,
    result: Result<(), SubscriberError<Store::Error>>,
) where
    Store: LinkStore,
    LinkGen: ChannelLinkGenerator,
    Unwrap: FnOnce(&Header, Ctx, &Store, &MssPublicKey) -> Result<
        Opened<Store::State, change_key::ContentUnwrap>,
        Store::Error,
    >,

    requires
        call_ensures(
            SubscriberT::<Prng, Store, LinkGen>::handle_change_key::<Ctx, Unwrap>,
            (subscriber, preparsed, info, unwrap),
            result,
        ),
        old(subscriber)@.appinst matches Some(appinst)
            && appinst.base@ == preparsed.header.link.base@,
        old(subscriber)@.author_mss_pk is Some,
    ensures
        exists|
            outcome: Result<Opened<Store::State, change_key::ContentUnwrap>, Store::Error>,
        | {
            &&& #[trigger] call_ensures(
                unwrap,
                (
                    &preparsed.header,
                    preparsed.ctx,
                    &old(subscriber)@.store,
                    &old(subscriber)@.author_mss_pk->Some_0,
                ),
                outcome,
            )
            &&& match outcome {
                Err(failure) => result == Err::<(), _>(SubscriberError::Failed(failure))
                    && final(subscriber)@ == old(subscriber)@,
                Ok(opened) => match result {
                    Ok(_) => {
                        &&& Store::updated(
                            old(subscriber)@.store,
                            preparsed.header.link.rel@,
                            opened.spongos,
                            info,
                            final(subscriber)@.store,
                            Ok(()),
                        )
                        &&& old(subscriber)@.store.entries() matches Some(entries)
                            ==> final(subscriber)@.store.entries() == Some(
                            entries.insert(preparsed.header.link.rel@, (opened.spongos, info)),
                        )
                        &&& final(subscriber)@.author_mss_pk == Some(opened.content.mss_pk)
                    },
                    Err(error) => {
                        &&& error matches SubscriberError::Failed(failure) && Store::updated(
                            old(subscriber)@.store,
                            preparsed.header.link.rel@,
                            opened.spongos,
                            info,
                            final(subscriber)@.store,
                            Err(failure),
                        )
                        &&& final(subscriber)@.author_mss_pk == old(subscriber)@.author_mss_pk
                    },
                },
            }
        },
{
}

/// Handling a change of key leaves the rest of the Subscriber as it was.
pub proof fn law_handle_change_key_keeps<Prng, Store, LinkGen, Ctx, Unwrap>(
    subscriber: &mut SubscriberT<Prng, Store, LinkGen>,
    preparsed: PreparsedMessage<Ctx>,
    info: Store::Info,
    unwrap: Unwrap,
    result: Result<(), SubscriberError<Store::Error>>,
) where
    Store: LinkStore,
    LinkGen: ChannelLinkGenerator,
    Unwrap: FnOnce(&Header, Ctx, &Store, &MssPublicKey) -> Result<
        Opened<Store::State, change_key::ContentUnwrap>,
        Store::Error,
    >,

    requires
        call_ensures(
            SubscriberT::<Prng, Store, LinkGen>::handle_change_key::<Ctx, Unwrap>,
            (subscriber, preparsed, info, unwrap),
            result,
        ),
    ensures
        final(subscriber)@.prng == old(subscriber)@.prng,
        final(subscriber)@.opt_psk == old(subscriber)@.opt_psk,
        final(subscriber)@.opt_ntru == old(subscriber)@.opt_ntru,
        final(subscriber)@.appinst == old(subscriber)@.appinst,
        final(subscriber)@.author_ntru_pk == old(subscriber)@.author_ntru_pk,
        final(subscriber)@.link_gen == old(subscriber)@.link_gen,
{
}

/// Any Subscriber can be asked to handle a change of key. The function need only be
/// fit to be called on a message that is not refused.
pub proof fn law_handle_change_key_is_allowed<Prng, Store, LinkGen, Ctx, Unwrap>(
    subscriber: &mut SubscriberT<Prng, Store, LinkGen>,
    preparsed: PreparsedMessage<Ctx>,
    info: Store::Info,
    unwrap: Unwrap,
) where
    Store: LinkStore,
    LinkGen: ChannelLinkGenerator,
    Unwrap: FnOnce(&Header, Ctx, &Store, &MssPublicKey) -> Result<
        Opened<Store::State, change_key::ContentUnwrap>,
        Store::Error,
    >,

    requires
        (old(subscriber)@.appinst matches Some(appinst)
            && appinst.base@ == preparsed.header.link.base@
            && old(subscriber)@.author_mss_pk is Some) ==> call_requires(
            unwrap,
            (
                &preparsed.header,
                preparsed.ctx,
                &old(subscriber)@.store,
                &old(subscriber)@.author_mss_pk->Some_0,
            ),
        ),
    ensures
        call_requires(
            SubscriberT::<Prng, Store, LinkGen>::handle_change_key::<Ctx, Unwrap>,
            (subscriber, preparsed, info, unwrap),
        ),
{
}

/// A change of key is not unwrapped exactly on these grounds.
pub proof fn law_unwrap_change_key_refusals<Prng, Store, LinkGen, Ctx, Unwrap>(
    subscriber: SubscriberT<Prng, Store, LinkGen>,
    preparsed: PreparsedMessage<Ctx>,
    unwrap: Unwrap,
    result: Result<
        UnwrappedMessage<Store::State, change_key::ContentUnwrap>,
        SubscriberError<Store::Error>,
    >,
) where
    Store: LinkStore,
    LinkGen: ChannelLinkGenerator,
    Unwrap: FnOnce(&Header, Ctx, &Store, &MssPublicKey) -> Result<
        Opened<Store::State, change_key::ContentUnwrap>,
        Store::Error,
    >,

    requires
        call_ensures(
            SubscriberT::<Prng, Store, LinkGen>::unwrap_change_key::<Ctx, Unwrap>,
            (&subscriber, preparsed, unwrap),
            result,
        ),
    ensures
        (result matches Err(error) && error is NotSubscribed) <==> subscriber@.appinst is None,
        (result matches Err(error) && error is BadInstance)
            <==> (subscriber@.appinst matches Some(appinst)
            && appinst.base@ != preparsed.header.link.base@),
        result matches Err(error)
            ==> error is NotSubscribed || error is BadInstance || error is Failed,
{
}

/// Unwrapping a change of key that is not refused gives what `unwrap` opened, at the
/// link of the message, or the failure of `unwrap`.
pub proof fn law_unwrap_change_key_answers<Prng, Store, LinkGen, Ctx, Unwrap>(
    subscriber: SubscriberT<Prng, Store, LinkGen>,
    preparsed: PreparsedMessage<Ctx>,
    unwrap: Unwrap,
    result: Result<
        UnwrappedMessage<Store::State, change_key::ContentUnwrap>,
        SubscriberError<Store::Error>,
    >,
) where
    Store: LinkStore,
    LinkGen: ChannelLinkGenerator,
    Unwrap: FnOnce(&Header, Ctx, &Store, &MssPublicKey) -> Result<
        Opened<Store::State, change_key::ContentUnwrap>,
        Store::Error,
    >,

    requires
        call_ensures(
            SubscriberT::<Prng, Store, LinkGen>::unwrap_change_key::<Ctx, Unwrap>,
            (&subscriber, preparsed, unwrap),
            result,
        ),
        subscriber@.appinst matches Some(appinst) && appinst.base@ == preparsed.header.link.base@,
        subscriber@.author_mss_pk is Some,
    ensures
        exists|
            outcome: Result<Opened<Store::State, change_key::ContentUnwrap>, Store::Error>,
        | {
            &&& #[trigger] call_ensures(
                unwrap,
                (
                    &preparsed.header,
                    preparsed.ctx,
                    &subscriber@.store,
                    &subscriber@.author_mss_pk->Some_0,
                ),
                outcome,
            )
            &&& match outcome {
                Err(failure) => result matches Err(SubscriberError::Failed(reported)) && reported
                    == failure,
                Ok(opened) => result matches Ok(unwrapped)
                    && unwrapped.link == preparsed.header.link
                    && unwrapped.spongos == opened.spongos && unwrapped.content == opened.content,
            }
        },
{
}

/// Any Subscriber can be asked to unwrap a change of key if it knows the Author's key
/// once bound. The function need only be fit to be called on a message that is not
/// refused.
pub proof fn law_unwrap_change_key_is_allowed<Prng, Store, LinkGen, Ctx, Unwrap>(
    subscriber: SubscriberT<Prng, Store, LinkGen>,
    preparsed: PreparsedMessage<Ctx>,
    unwrap: Unwrap,
) where
    Store: LinkStore,
    LinkGen: ChannelLinkGenerator,
    Unwrap: FnOnce(&Header, Ctx, &Store, &MssPublicKey) -> Result<
        Opened<Store::State, change_key::ContentUnwrap>,
        Store::Error,
    >,

    requires
        (subscriber@.appinst matches Some(appinst)
            && appinst.base@ == preparsed.header.link.base@) ==> subscriber@.author_mss_pk is Some,
        (subscriber@.appinst matches Some(appinst)
            && appinst.base@ == preparsed.header.link.base@) ==> call_requires(
            unwrap,
            (
                &preparsed.header,
                preparsed.ctx,
                &subscriber@.store,
                &subscriber@.author_mss_pk->Some_0,
            ),
        ),
    ensures
        call_requires(
            SubscriberT::<Prng, Store, LinkGen>::unwrap_change_key::<Ctx, Unwrap>,
            (&subscriber, preparsed, unwrap),
        ),
{
}

/// Committing a change of key records it under its link, with its state and info, and
/// does what handling it does; nothing but a failure of the store keeps it from that.
pub proof fn law_commit_change_key_answers<Prng, Store: LinkStore, LinkGen: ChannelLinkGenerator>(
    subscriber: &mut SubscriberT<Prng, Store, LinkGen>,
    unwrapped: UnwrappedMessage<Store::State, change_key::ContentUnwrap>,
    info: Store::Info,
    result: Result<(), SubscriberError<Store::Error>>,
)
    requires
        call_ensures(
            SubscriberT::<Prng, Store, LinkGen>::commit_change_key,
            (subscriber, unwrapped, info),
            result,
        ),
    ensures
        match result {
            Ok(_) => {
                &&& Store::updated(
                    old(subscriber)@.store,
                    unwrapped.link.rel@,
                    unwrapped.spongos,
                    info,
                    final(subscriber)@.store,
                    Ok(()),
                )
                &&& old(subscriber)@.store.entries() matches Some(entries)
                    ==> final(subscriber)@.store.entries() == Some(
                    entries.insert(unwrapped.link.rel@, (unwrapped.spongos, info)),
                )
                &&& final(subscriber)@.author_mss_pk == Some(unwrapped.content.mss_pk)
            },
            Err(error) => {
                &&& error matches SubscriberError::Failed(failure) && Store::updated(
                    old(subscriber)@.store,
                    unwrapped.link.rel@,
                    unwrapped.spongos,
                    info,
                    final(subscriber)@.store,
                    Err(failure),
                )
                &&& final(subscriber)@.author_mss_pk == old(subscriber)@.author_mss_pk
            },
        },
        final(subscriber)@.prng == old(subscriber)@.prng,
        final(subscriber)@.opt_psk == old(subscriber)@.opt_psk,
        final(subscriber)@.opt_ntru == old(subscriber)@.opt_ntru,
        final(subscriber)@.appinst == old(subscriber)@.appinst,
        final(subscriber)@.author_ntru_pk == old(subscriber)@.author_ntru_pk,
        final(subscriber)@.link_gen == old(subscriber)@.link_gen,
{
}

/// A change of key that is not refused can be committed.
pub proof fn law_commit_change_key_is_allowed<
    Prng,
    Store: LinkStore,
    LinkGen: ChannelLinkGenerator,
>(
    subscriber: &mut SubscriberT<Prng, Store, LinkGen>,
    unwrapped: UnwrappedMessage<Store::State, change_key::ContentUnwrap>,
    info: Store::Info,
)
    requires
        old(subscriber)@.appinst matches Some(appinst) && appinst.base@ == unwrapped.link.base@,
        old(subscriber)@.author_mss_pk is Some,
    ensures
        call_requires(
            SubscriberT::<Prng, Store, LinkGen>::commit_change_key,
            (subscriber, unwrapped, info),
        ),
{
}

/// A keyload is refused exactly on these grounds, and then nothing changes.
pub proof fn law_handle_keyload_refusals<Prng, Store, LinkGen, Ctx, Unwrap>(
    subscriber: &mut SubscriberT<Prng, Store, LinkGen>,
    preparsed: PreparsedMessage<Ctx>,
    info: Store::Info,
    unwrap: Unwrap,
    result: Result<(), SubscriberError<Store::Error>>,
) where
    Store: LinkStore,
    LinkGen: ChannelLinkGenerator,
    Unwrap: FnOnce(&Header, Ctx, &Store, KeyRing<Prng, Store, LinkGen>) -> Result<
        Opened<Store::State, keyload::ContentUnwrap>,
        Store::Error,
    >,

    requires
        call_ensures(
            SubscriberT::<Prng, Store, LinkGen>::handle_keyload::<Ctx, Unwrap>,
            (subscriber, preparsed, info, unwrap),
            result,
        ),
    ensures
        (result matches Err(error) && error is NotSubscribed) <==> old(subscriber)@.appinst is None,
        (result matches Err(error) && error is BadInstance)
            <==> (old(subscriber)@.appinst matches Some(appinst)
            && appinst.base@ != preparsed.header.link.base@),
        result matches Err(error)
            ==> error is NotSubscribed || error is BadInstance || error is Failed,
        (result matches Err(error) && !(error is Failed))
            ==> final(subscriber)@ == old(subscriber)@,
{
}

/// A keyload that is not refused is opened with the Subscriber's own key ring. If it
/// is handled, whichever keys the Subscriber has, the sponge state that `unwrap` gave
/// is in the store under the link of the keyload. Nothing but a failure of `unwrap`
/// or of the store keeps it from that.
pub proof fn law_handle_keyload_answers<Prng, Store, LinkGen, Ctx, Unwrap>(
    subscriber: &mut SubscriberT<Prng, Store, LinkGen>,
    preparsed: PreparsedMessage<Ctx>,
    info: Store::Info,
    unwrap: Unwrap,
    result: Result<(), SubscriberError<Store::Error>>,
) where
    Store: LinkStore,
    LinkGen: ChannelLinkGenerator,
    Unwrap: FnOnce(&Header, Ctx, &Store, KeyRing<Prng, Store, LinkGen>) -> Result<
        Opened<Store::State, keyload::ContentUnwrap>,
        Store::Error,
    >,

    requires
        call_ensures(
            SubscriberT::<Prng, Store, LinkGen>::handle_keyload::<Ctx, Unwrap>,
            (subscriber, preparsed, info, unwrap),
            result,
        ),
        old(subscriber)@.appinst matches Some(appinst)
            && appinst.base@ == preparsed.header.link.base@,
    ensures
        exists|
            ring: KeyRing<Prng, Store, LinkGen>,
            outcome: Result<Opened<Store::State, keyload::ContentUnwrap>, Store::Error>,
        | {
            &&& ring.owner() == old(subscriber)@
            &&& #[trigger] call_ensures(
                unwrap,
                (&preparsed.header, preparsed.ctx, &old(subscriber)@.store, ring),
                outcome,
            )
            &&& match outcome {
                Err(failure) => result == Err::<(), _>(SubscriberError::Failed(failure))
                    && final(subscriber)@ == old(subscriber)@,
                Ok(opened) => match result {
                    Ok(_) => {
                        &&& Store::updated(
                            old(subscriber)@.store,
                            preparsed.header.link.rel@,
                            opened.spongos,
                            info,
                            final(subscriber)@.store,
                            Ok(()),
                        )
                        &&& old(subscriber)@.store.entries() matches Some(entries)
                            ==> final(subscriber)@.store.entries() == Some(
                            entries.insert(preparsed.header.link.rel@, (opened.spongos, info)),
                        )
                    },
                    Err(error) => error matches SubscriberError::Failed(failure) && Store::updated(
                        old(subscriber)@.store,
                        preparsed.header.link.rel@,
                        opened.spongos,
                        info,
                        final(subscriber)@.store,
                        Err(failure),
                    ),
                },
            }
        },
{
}

/// Handling a keyload leaves the rest of the Subscriber as it was.
pub proof fn law_handle_keyload_keeps<Prng, Store, LinkGen, Ctx, Unwrap>(
    subscriber: &mut SubscriberT<Prng, Store, LinkGen>,
    preparsed: PreparsedMessage<Ctx>,
    info: Store::Info,
    unwrap: Unwrap,
    result: Result<(), SubscriberError<Store::Error>>,
) where
    Store: LinkStore,
    LinkGen: ChannelLinkGenerator,
    Unwrap: FnOnce(&Header, Ctx, &Store, KeyRing<Prng, Store, LinkGen>) -> Result<
        Opened<Store::State, keyload::ContentUnwrap>,
        Store::Error,
    >,

    requires
        call_ensures(
            SubscriberT::<Prng, Store, LinkGen>::handle_keyload::<Ctx, Unwrap>,
            (subscriber, preparsed, info, unwrap),
            result,
        ),
    ensures
        final(subscriber)@.prng == old(subscriber)@.prng,
        final(subscriber)@.opt_psk == old(subscriber)@.opt_psk,
        final(subscriber)@.opt_ntru == old(subscriber)@.opt_ntru,
        final(subscriber)@.appinst == old(subscriber)@.appinst,
        final(subscriber)@.author_mss_pk == old(subscriber)@.author_mss_pk,
        final(subscriber)@.author_ntru_pk == old(subscriber)@.author_ntru_pk,
        final(subscriber)@.link_gen == old(subscriber)@.link_gen,
{
}

/// Any Subscriber can be asked to handle a keyload. The function need only be fit to
/// be called on a message that is not refused.
pub proof fn law_handle_keyload_is_allowed<Prng, Store, LinkGen, Ctx, Unwrap>(
    subscriber: &mut SubscriberT<Prng, Store, LinkGen>,
    preparsed: PreparsedMessage<Ctx>,
    info: Store::Info,
    unwrap: Unwrap,
) where
    Store: LinkStore,
    LinkGen: ChannelLinkGenerator,
    Unwrap: FnOnce(&Header, Ctx, &Store, KeyRing<Prng, Store, LinkGen>) -> Result<
        Opened<Store::State, keyload::ContentUnwrap>,
        Store::Error,
    >,

    requires
        (old(subscriber)@.appinst matches Some(appinst)
            && appinst.base@ == preparsed.header.link.base@) ==> forall|
            ring: KeyRing<Prng, Store, LinkGen>,
        |
            #[trigger] ring.owner() == old(subscriber)@ ==> call_requires(
                unwrap,
                (&preparsed.header, preparsed.ctx, &old(subscriber)@.store, ring),
            ),
    ensures
        call_requires(
            SubscriberT::<Prng, Store, LinkGen>::handle_keyload::<Ctx, Unwrap>,
            (subscriber, preparsed, info, unwrap),
        ),
{
}

/// A keyload is not unwrapped exactly on these grounds.
pub proof fn law_unwrap_keyload_refusals<Prng, Store, LinkGen, Ctx, Unwrap>(
    subscriber: SubscriberT<Prng, Store, LinkGen>,
    preparsed: PreparsedMessage<Ctx>,
    unwrap: Unwrap,
    result: Result<
        UnwrappedMessage<Store::State, keyload::ContentUnwrap>,
        SubscriberError<Store::Error>,
    >,
) where
    Store: LinkStore,
    LinkGen: ChannelLinkGenerator,
    Unwrap: FnOnce(&Header, Ctx, &Store, KeyRing<Prng, Store, LinkGen>) -> Result<
        Opened<Store::State, keyload::ContentUnwrap>,
        Store::Error,
    >,

    requires
        call_ensures(
            SubscriberT::<Prng, Store, LinkGen>::unwrap_keyload::<Ctx, Unwrap>,
            (&subscriber, preparsed, unwrap),
            result,
        ),
    ensures
        (result matches Err(error) && error is NotSubscribed) <==> subscriber@.appinst is None,
        (result matches Err(error) && error is BadInstance)
            <==> (subscriber@.appinst matches Some(appinst)
            && appinst.base@ != preparsed.header.link.base@),
        result matches Err(error)
            ==> error is NotSubscribed || error is BadInstance || error is Failed,
{
}

/// Unwrapping a keyload that is not refused gives what `unwrap` opened, at the link
/// of the message, or the failure of `unwrap`.
pub proof fn law_unwrap_keyload_answers<Prng, Store, LinkGen, Ctx, Unwrap>(
    subscriber: SubscriberT<Prng, Store, LinkGen>,
    preparsed: PreparsedMessage<Ctx>,
    unwrap: Unwrap,
    result: Result<
        UnwrappedMessage<Store::State, keyload::ContentUnwrap>,
        SubscriberError<Store::Error>,
    >,
) where
    Store: LinkStore,
    LinkGen: ChannelLinkGenerator,
    Unwrap: FnOnce(&Header, Ctx, &Store, KeyRing<Prng, Store, LinkGen>) -> Result<
        Opened<Store::State, keyload::ContentUnwrap>,
        Store::Error,
    >,

    requires
        call_ensures(
            SubscriberT::<Prng, Store, LinkGen>::unwrap_keyload::<Ctx, Unwrap>,
            (&subscriber, preparsed, unwrap),
            result,
        ),
        subscriber@.appinst matches Some(appinst) && appinst.base@ == preparsed.header.link.base@,
    ensures
        exists|
            ring: KeyRing<Prng, Store, LinkGen>,
            outcome: Result<Opened<Store::State, keyload::ContentUnwrap>, Store::Error>,
        | {
            &&& ring.owner() == subscriber@
            &&& #[trigger] call_ensures(
                unwrap,
                (&preparsed.header, preparsed.ctx, &subscriber@.store, ring),
                outcome,
            )
            &&& match outcome {
                Err(failure) => result matches Err(SubscriberError::Failed(reported)) && reported
                    == failure,
                Ok(opened) => result matches Ok(unwrapped)
                    && unwrapped.link == preparsed.header.link
                    && unwrapped.spongos == opened.spongos && unwrapped.content == opened.content,
            }
        },
{
}

/// Any Subscriber can be asked to unwrap a keyload. The function need only be fit to
/// be called on a message that is not refused.
pub proof fn law_unwrap_keyload_is_allowed<Prng, Store, LinkGen, Ctx, Unwrap>(
    subscriber: SubscriberT<Prng, Store, LinkGen>,
    preparsed: PreparsedMessage<Ctx>,
    unwrap: Unwrap,
) where
    Store: LinkStore,
    LinkGen: ChannelLinkGenerator,
    Unwrap: FnOnce(&Header, Ctx, &Store, KeyRing<Prng, Store, LinkGen>) -> Result<
        Opened<Store::State, keyload::ContentUnwrap>,
        Store::Error,
    >,

    requires
        (subscriber@.appinst matches Some(appinst)
            && appinst.base@ == preparsed.header.link.base@) ==> forall|
            ring: KeyRing<Prng, Store, LinkGen>,
        |
            #[trigger] ring.owner() == subscriber@ ==> call_requires(
                unwrap,
                (&preparsed.header, preparsed.ctx, &subscriber@.store, ring),
            ),
    ensures
        call_requires(
            SubscriberT::<Prng, Store, LinkGen>::unwrap_keyload::<Ctx, Unwrap>,
            (&subscriber, preparsed, unwrap),
        ),
{
}

/// Committing a keyload records it under its link, with its state and info, and does
/// what handling it does; nothing but a failure of the store keeps it from that.
pub proof fn law_commit_keyload_answers<Prng, Store: LinkStore, LinkGen: ChannelLinkGenerator>(
    subscriber: &mut SubscriberT<Prng, Store, LinkGen>,
    unwrapped: UnwrappedMessage<Store::State, keyload::ContentUnwrap>,
    info: Store::Info,
    result: Result<(), SubscriberError<Store::Error>>,
)
    requires
        call_ensures(
            SubscriberT::<Prng, Store, LinkGen>::commit_keyload,
            (subscriber, unwrapped, info),
            result,
        ),
    ensures
        match result {
            Ok(_) => {
                &&& Store::updated(
                    old(subscriber)@.store,
                    unwrapped.link.rel@,
                    unwrapped.spongos,
                    info,
                    final(subscriber)@.store,
                    Ok(()),
                )
                &&& old(subscriber)@.store.entries() matches Some(entries)
                    ==> final(subscriber)@.store.entries() == Some(
                    entries.insert(unwrapped.link.rel@, (unwrapped.spongos, info)),
                )
            },
            Err(error) => error matches SubscriberError::Failed(failure) && Store::updated(
                old(subscriber)@.store,
                unwrapped.link.rel@,
                unwrapped.spongos,
                info,
                final(subscriber)@.store,
                Err(failure),
            ),
        },
        final(subscriber)@.prng == old(subscriber)@.prng,
        final(subscriber)@.opt_psk == old(subscriber)@.opt_psk,
        final(subscriber)@.opt_ntru == old(subscriber)@.opt_ntru,
        final(subscriber)@.appinst == old(subscriber)@.appinst,
        final(subscriber)@.author_mss_pk == old(subscriber)@.author_mss_pk,
        final(subscriber)@.author_ntru_pk == old(subscriber)@.author_ntru_pk,
        final(subscriber)@.link_gen == old(subscriber)@.link_gen,
{
}

/// A keyload that is not refused can be committed.
pub proof fn law_commit_keyload_is_allowed<Prng, Store: LinkStore, LinkGen: ChannelLinkGenerator>(
    subscriber: &mut SubscriberT<Prng, Store, LinkGen>,
    unwrapped: UnwrappedMessage<Store::State, keyload::ContentUnwrap>,
    info: Store::Info,
)
    requires
        old(subscriber)@.appinst matches Some(appinst) && appinst.base@ == unwrapped.link.base@,
    ensures
        call_requires(
            SubscriberT::<Prng, Store, LinkGen>::commit_keyload,
            (subscriber, unwrapped, info),
        ),
{
}

/// A signed packet is refused exactly on these grounds, and then nothing changes.
pub proof fn law_handle_signed_packet_refusals<Prng, Store, LinkGen, Ctx, Unwrap>(
    subscriber: &mut SubscriberT<Prng, Store, LinkGen>,
    preparsed: PreparsedMessage<Ctx>,
    info: Store::Info,
    unwrap: Unwrap,
    result: Result<(Trytes, Trytes), SubscriberError<Store::Error>>,
) where
    Store: LinkStore,
    LinkGen: ChannelLinkGenerator,
    Unwrap: FnOnce(&Header, Ctx, &Store) -> Result<
        Opened<Store::State, signed_packet::ContentUnwrap>,
        Store::Error,
    >,

    requires
        call_ensures(
            SubscriberT::<Prng, Store, LinkGen>::handle_signed_packet::<Ctx, Unwrap>,
            (subscriber, preparsed, info, unwrap),
            result,
        ),
    ensures
        (result matches Err(error) && error is NoAuthorMssPublicKey)
            <==> old(subscriber)@.author_mss_pk is None,
        (result matches Err(error) && error is NotSubscribed)
            <==> (old(subscriber)@.author_mss_pk is Some && old(subscriber)@.appinst is None),
        (result matches Err(error) && error is BadInstance)
            <==> (old(subscriber)@.author_mss_pk is Some
            && (old(subscriber)@.appinst matches Some(appinst)
            && appinst.base@ != preparsed.header.link.base@)),
        result matches Err(error) ==> error is NoAuthorMssPublicKey || error is NotSubscribed
            || error is BadInstance || error is Failed || error is BadSignature,
        (result matches Err(error) && !(error is Failed) && !(error is BadSignature))
            ==> final(subscriber)@ == old(subscriber)@,
{
}

/// A signed packet that is not refused is opened and recorded. Then, for every
/// Subscriber, the public payload comes first and the masked one second if the packet
/// was signed with the Author's key, and the signature is reported as bad if and only
/// if it was not.
pub proof fn law_handle_signed_packet_answers<Prng, Store, LinkGen, Ctx, Unwrap>(
    subscriber: &mut SubscriberT<Prng, Store, LinkGen>,
    preparsed: PreparsedMessage<Ctx>,
    info: Store::Info,
    unwrap: Unwrap,
    result: Result<(Trytes, Trytes), SubscriberError<Store::Error>>,
) where
    Store: LinkStore,
    LinkGen: ChannelLinkGenerator,
    Unwrap: FnOnce(&Header, Ctx, &Store) -> Result<
        Opened<Store::State, signed_packet::ContentUnwrap>,
        Store::Error,
    >,

    requires
        call_ensures(
            SubscriberT::<Prng, Store, LinkGen>::handle_signed_packet::<Ctx, Unwrap>,
            (subscriber, preparsed, info, unwrap),
            result,
        ),
        old(subscriber)@.appinst matches Some(appinst)
            && appinst.base@ == preparsed.header.link.base@,
        old(subscriber)@.author_mss_pk is Some,
    ensures
        exists|
            outcome: Result<Opened<Store::State, signed_packet::ContentUnwrap>, Store::Error>,
        | {
            &&& #[trigger] call_ensures(
                unwrap,
                (&preparsed.header, preparsed.ctx, &old(subscriber)@.store),
                outcome,
            )
            &&& match outcome {
                Err(failure) => result
                    == Err::<(Trytes, Trytes), _>(SubscriberError::Failed(failure))
                    && final(subscriber)@ == old(subscriber)@,
                Ok(opened) => match result {
                    Ok(payloads) => {
                        &&& Store::updated(
                            old(subscriber)@.store,
                            preparsed.header.link.rel@,
                            opened.spongos,
                            info,
                            final(subscriber)@.store,
                            Ok(()),
                        )
                        &&& old(subscriber)@.store.entries() matches Some(entries)
                            ==> final(subscriber)@.store.entries() == Some(
                            entries.insert(preparsed.header.link.rel@, (opened.spongos, info)),
                        )
                        &&& old(subscriber)@.author_mss_pk->Some_0.pk@ == opened.content.mss_pk.pk@
                        &&& payloads.0 == opened.content.public_payload
                        &&& payloads.1 == opened.content.masked_payload
                    },
                    Err(SubscriberError::BadSignature) => {
                        &&& Store::updated(
                            old(subscriber)@.store,
                            preparsed.header.link.rel@,
                            opened.spongos,
                            info,
                            final(subscriber)@.store,
                            Ok(()),
                        )
                        &&& old(subscriber)@.store.entries() matches Some(entries)
                            ==> final(subscriber)@.store.entries() == Some(
                            entries.insert(preparsed.header.link.rel@, (opened.spongos, info)),
                        )
                        &&& old(subscriber)@.author_mss_pk->Some_0.pk@ != opened.content.mss_pk.pk@
                    },
                    Err(error) => error matches SubscriberError::Failed(failure) && Store::updated(
                        old(subscriber)@.store,
                        preparsed.header.link.rel@,
                        opened.spongos,
                        info,
                        final(subscriber)@.store,
                        Err(failure),
                    ),
                },
            }
        },
{
}

/// Handling a signed packet leaves the rest of the Subscriber as it was.
pub proof fn law_handle_signed_packet_keeps<Prng, Store, LinkGen, Ctx, Unwrap>(
    subscriber: &mut SubscriberT<Prng, Store, LinkGen>,
    preparsed: PreparsedMessage<Ctx>,
    info: Store::Info,
    unwrap: Unwrap,
    result: Result<(Trytes, Trytes), SubscriberError<Store::Error>>,
) where
    Store: LinkStore,
    LinkGen: ChannelLinkGenerator,
    Unwrap: FnOnce(&Header, Ctx, &Store) -> Result<
        Opened<Store::State, signed_packet::ContentUnwrap>,
        Store::Error,
    >,

    requires
        call_ensures(
            SubscriberT::<Prng, Store, LinkGen>::handle_signed_packet::<Ctx, Unwrap>,
            (subscriber, preparsed, info, unwrap),
            result,
        ),
    ensures
        final(subscriber)@.prng == old(subscriber)@.prng,
        final(subscriber)@.opt_psk == old(subscriber)@.opt_psk,
        final(subscriber)@.opt_ntru == old(subscriber)@.opt_ntru,
        final(subscriber)@.appinst == old(subscriber)@.appinst,
        final(subscriber)@.author_mss_pk == old(subscriber)@.author_mss_pk,
        final(subscriber)@.author_ntru_pk == old(subscriber)@.author_ntru_pk,
        final(subscriber)@.link_gen == old(subscriber)@.link_gen,
{
}

/// Any Subscriber can be asked to handle a signed packet. The function need only be
/// fit to be called on a message that is not refused.
pub proof fn law_handle_signed_packet_is_allowed<Prng, Store, LinkGen, Ctx, Unwrap>(
    subscriber: &mut SubscriberT<Prng, Store, LinkGen>,
    preparsed: PreparsedMessage<Ctx>,
    info: Store::Info,
    unwrap: Unwrap,
) where
    Store: LinkStore,
    LinkGen: ChannelLinkGenerator,
    Unwrap: FnOnce(&Header, Ctx, &Store) -> Result<
        Opened<Store::State, signed_packet::ContentUnwrap>,
        Store::Error,
    >,

    requires
        (old(subscriber)@.appinst matches Some(appinst)
            && appinst.base@ == preparsed.header.link.base@
            && old(subscriber)@.author_mss_pk is Some) ==> call_requires(
            unwrap,
            (&preparsed.header, preparsed.ctx, &old(subscriber)@.store),
        ),
    ensures
        call_requires(
            SubscriberT::<Prng, Store, LinkGen>::handle_signed_packet::<Ctx, Unwrap>,
            (subscriber, preparsed, info, unwrap),
        ),
{
}

/// A signed packet is not unwrapped exactly on these grounds.
pub proof fn law_unwrap_signed_packet_refusals<Prng, Store, LinkGen, Ctx, Unwrap>(
    subscriber: SubscriberT<Prng, Store, LinkGen>,
    preparsed: PreparsedMessage<Ctx>,
    unwrap: Unwrap,
    result: Result<
        UnwrappedMessage<Store::State, signed_packet::ContentUnwrap>,
        SubscriberError<Store::Error>,
    >,
) where
    Store: LinkStore,
    LinkGen: ChannelLinkGenerator,
    Unwrap: FnOnce(&Header, Ctx, &Store) -> Result<
        Opened<Store::State, signed_packet::ContentUnwrap>,
        Store::Error,
    >,

    requires
        call_ensures(
            SubscriberT::<Prng, Store, LinkGen>::unwrap_signed_packet::<Ctx, Unwrap>,
            (&subscriber, preparsed, unwrap),
            result,
        ),
    ensures
        (result matches Err(error) && error is NotSubscribed) <==> subscriber@.appinst is None,
        (result matches Err(error) && error is BadInstance)
            <==> (subscriber@.appinst matches Some(appinst)
            && appinst.base@ != preparsed.header.link.base@),
        (result matches Err(error) && error is CannotVerifySignature)
            <==> (subscriber@.appinst matches Some(appinst) && appinst.base@
            == preparsed.header.link.base@ && subscriber@.author_mss_pk is None),
        result matches Err(error)
            ==> error is NotSubscribed || error is BadInstance || error is CannotVerifySignature
            || error is Failed,
{
}

/// Unwrapping a signed packet that is not refused gives what `unwrap` opened, at the
/// link of the message, or the failure of `unwrap`.
pub proof fn law_unwrap_signed_packet_answers<Prng, Store, LinkGen, Ctx, Unwrap>(
    subscriber: SubscriberT<Prng, Store, LinkGen>,
    preparsed: PreparsedMessage<Ctx>,
    unwrap: Unwrap,
    result: Result<
        UnwrappedMessage<Store::State, signed_packet::ContentUnwrap>,
        SubscriberError<Store::Error>,
    >,
) where
    Store: LinkStore,
    LinkGen: ChannelLinkGenerator,
    Unwrap: FnOnce(&Header, Ctx, &Store) -> Result<
        Opened<Store::State, signed_packet::ContentUnwrap>,
        Store::Error,
    >,

    requires
        call_ensures(
            SubscriberT::<Prng, Store, LinkGen>::unwrap_signed_packet::<Ctx, Unwrap>,
            (&subscriber, preparsed, unwrap),
            result,
        ),
        subscriber@.appinst matches Some(appinst) && appinst.base@ == preparsed.header.link.base@,
        subscriber@.author_mss_pk is Some,
    ensures
        exists|
            outcome: Result<Opened<Store::State, signed_packet::ContentUnwrap>, Store::Error>,
        | {
            &&& #[trigger] call_ensures(
                unwrap,
                (&preparsed.header, preparsed.ctx, &subscriber@.store),
                outcome,
            )
            &&& match outcome {
                Err(failure) => result matches Err(SubscriberError::Failed(reported)) && reported
                    == failure,
                Ok(opened) => result matches Ok(unwrapped)
                    && unwrapped.link == preparsed.header.link
                    && unwrapped.spongos == opened.spongos && unwrapped.content == opened.content,
            }
        },
{
}

/// Any Subscriber can be asked to unwrap a signed packet. The function need only be
/// fit to be called on a message that is not refused.
pub proof fn law_unwrap_signed_packet_is_allowed<Prng, Store, LinkGen, Ctx, Unwrap>(
    subscriber: SubscriberT<Prng, Store, LinkGen>,
    preparsed: PreparsedMessage<Ctx>,
    unwrap: Unwrap,
) where
    Store: LinkStore,
    LinkGen: ChannelLinkGenerator,
    Unwrap: FnOnce(&Header, Ctx, &Store) -> Result<
        Opened<Store::State, signed_packet::ContentUnwrap>,
        Store::Error,
    >,

    requires
        (subscriber@.appinst matches Some(appinst) && appinst.base@ == preparsed.header.link.base@
            && subscriber@.author_mss_pk is Some) ==> call_requires(
            unwrap,
            (&preparsed.header, preparsed.ctx, &subscriber@.store),
        ),
    ensures
        call_requires(
            SubscriberT::<Prng, Store, LinkGen>::unwrap_signed_packet::<Ctx, Unwrap>,
            (&subscriber, preparsed, unwrap),
        ),
{
}

/// Committing a signed packet records it under its link, with its state and info, and
/// does what handling it does; nothing but a failure of the store keeps it from that.
pub proof fn law_commit_signed_packet_answers<
    Prng,
    Store: LinkStore,
    LinkGen: ChannelLinkGenerator,
>(
    subscriber: &mut SubscriberT<Prng, Store, LinkGen>,
    unwrapped: UnwrappedMessage<Store::State, signed_packet::ContentUnwrap>,
    info: Store::Info,
    result: Result<(Trytes, Trytes), SubscriberError<Store::Error>>,
)
    requires
        call_ensures(
            SubscriberT::<Prng, Store, LinkGen>::commit_signed_packet,
            (subscriber, unwrapped, info),
            result,
        ),
        old(subscriber)@.author_mss_pk is Some,
    ensures
        match result {
            Ok(payloads) => {
                &&& Store::updated(
                    old(subscriber)@.store,
                    unwrapped.link.rel@,
                    unwrapped.spongos,
                    info,
                    final(subscriber)@.store,
                    Ok(()),
                )
                &&& old(subscriber)@.store.entries() matches Some(entries)
                    ==> final(subscriber)@.store.entries() == Some(
                    entries.insert(unwrapped.link.rel@, (unwrapped.spongos, info)),
                )
                &&& old(subscriber)@.author_mss_pk->Some_0.pk@ == unwrapped.content.mss_pk.pk@
                &&& payloads.0 == unwrapped.content.public_payload
                &&& payloads.1 == unwrapped.content.masked_payload
            },
            Err(SubscriberError::BadSignature) => {
                &&& Store::updated(
                    old(subscriber)@.store,
                    unwrapped.link.rel@,
                    unwrapped.spongos,
                    info,
                    final(subscriber)@.store,
                    Ok(()),
                )
                &&& old(subscriber)@.store.entries() matches Some(entries)
                    ==> final(subscriber)@.store.entries() == Some(
                    entries.insert(unwrapped.link.rel@, (unwrapped.spongos, info)),
                )
                &&& old(subscriber)@.author_mss_pk->Some_0.pk@ != unwrapped.content.mss_pk.pk@
            },
            Err(error) => error matches SubscriberError::Failed(failure) && Store::updated(
                old(subscriber)@.store,
                unwrapped.link.rel@,
                unwrapped.spongos,
                info,
                final(subscriber)@.store,
                Err(failure),
            ),
        },
        final(subscriber)@.prng == old(subscriber)@.prng,
        final(subscriber)@.opt_psk == old(subscriber)@.opt_psk,
        final(subscriber)@.opt_ntru == old(subscriber)@.opt_ntru,
        final(subscriber)@.appinst == old(subscriber)@.appinst,
        final(subscriber)@.author_mss_pk == old(subscriber)@.author_mss_pk,
        final(subscriber)@.author_ntru_pk == old(subscriber)@.author_ntru_pk,
        final(subscriber)@.link_gen == old(subscriber)@.link_gen,
{
}

/// A signed packet that is not refused can be committed.
pub proof fn law_commit_signed_packet_is_allowed<
    Prng,
    Store: LinkStore,
    LinkGen: ChannelLinkGenerator,
>(
    subscriber: &mut SubscriberT<Prng, Store, LinkGen>,
    unwrapped: UnwrappedMessage<Store::State, signed_packet::ContentUnwrap>,
    info: Store::Info,
)
    requires
        old(subscriber)@.appinst matches Some(appinst) && appinst.base@ == unwrapped.link.base@,
        old(subscriber)@.author_mss_pk is Some,
    ensures
        call_requires(
            SubscriberT::<Prng, Store, LinkGen>::commit_signed_packet,
            (subscriber, unwrapped, info),
        ),
{
}

/// A tagged packet is refused exactly on these grounds, and then nothing changes.
pub proof fn law_handle_tagged_packet_refusals<Prng, Store, LinkGen, Ctx, Unwrap>(
    subscriber: &mut SubscriberT<Prng, Store, LinkGen>,
    preparsed: PreparsedMessage<Ctx>,
    info: Store::Info,
    unwrap: Unwrap,
    result: Result<(Trytes, Trytes), SubscriberError<Store::Error>>,
) where
    Store: LinkStore,
    LinkGen: ChannelLinkGenerator,
    Unwrap: FnOnce(&Header, Ctx, &Store) -> Result<
        Opened<Store::State, tagged_packet::ContentUnwrap>,
        Store::Error,
    >,

    requires
        call_ensures(
            SubscriberT::<Prng, Store, LinkGen>::handle_tagged_packet::<Ctx, Unwrap>,
            (subscriber, preparsed, info, unwrap),
            result,
        ),
    ensures
        (result matches Err(error) && error is NotSubscribed) <==> old(subscriber)@.appinst is None,
        (result matches Err(error) && error is BadInstance)
            <==> (old(subscriber)@.appinst matches Some(appinst)
            && appinst.base@ != preparsed.header.link.base@),
        result matches Err(error)
            ==> error is NotSubscribed || error is BadInstance || error is Failed,
        (result matches Err(error) && !(error is Failed))
            ==> final(subscriber)@ == old(subscriber)@,
{
}

/// A tagged packet that is not refused is opened and recorded. Then, for every
/// Subscriber, the public payload comes first and the masked one second. Nothing but
/// a failure of `unwrap` or of the store keeps it from that.
pub proof fn law_handle_tagged_packet_answers<Prng, Store, LinkGen, Ctx, Unwrap>(
    subscriber: &mut SubscriberT<Prng, Store, LinkGen>,
    preparsed: PreparsedMessage<Ctx>,
    info: Store::Info,
    unwrap: Unwrap,
    result: Result<(Trytes, Trytes), SubscriberError<Store::Error>>,
) where
    Store: LinkStore,
    LinkGen: ChannelLinkGenerator,
    Unwrap: FnOnce(&Header, Ctx, &Store) -> Result<
        Opened<Store::State, tagged_packet::ContentUnwrap>,
        Store::Error,
    >,

    requires
        call_ensures(
            SubscriberT::<Prng, Store, LinkGen>::handle_tagged_packet::<Ctx, Unwrap>,
            (subscriber, preparsed, info, unwrap),
            result,
        ),
        old(subscriber)@.appinst matches Some(appinst)
            && appinst.base@ == preparsed.header.link.base@,
    ensures
        exists|
            outcome: Result<Opened<Store::State, tagged_packet::ContentUnwrap>, Store::Error>,
        | {
            &&& #[trigger] call_ensures(
                unwrap,
                (&preparsed.header, preparsed.ctx, &old(subscriber)@.store),
                outcome,
            )
            &&& match outcome {
                Err(failure) => result
                    == Err::<(Trytes, Trytes), _>(SubscriberError::Failed(failure))
                    && final(subscriber)@ == old(subscriber)@,
                Ok(opened) => match result {
                    Ok(payloads) => {
                        &&& Store::updated(
                            old(subscriber)@.store,
                            preparsed.header.link.rel@,
                            opened.spongos,
                            info,
                            final(subscriber)@.store,
                            Ok(()),
                        )
                        &&& old(subscriber)@.store.entries() matches Some(entries)
                            ==> final(subscriber)@.store.entries() == Some(
                            entries.insert(preparsed.header.link.rel@, (opened.spongos, info)),
                        )
                        &&& payloads.0 == opened.content.public_payload
                        &&& payloads.1 == opened.content.masked_payload
                    },
                    Err(error) => error matches SubscriberError::Failed(failure) && Store::updated(
                        old(subscriber)@.store,
                        preparsed.header.link.rel@,
                        opened.spongos,
                        info,
                        final(subscriber)@.store,
                        Err(failure),
                    ),
                },
            }
        },
{
}

/// Handling a tagged packet leaves the rest of the Subscriber as it was.
pub proof fn law_handle_tagged_packet_keeps<Prng, Store, LinkGen, Ctx, Unwrap>(
    subscriber: &mut SubscriberT<Prng, Store, LinkGen>,
    preparsed: PreparsedMessage<Ctx>,
    info: Store::Info,
    unwrap: Unwrap,
    result: Result<(Trytes, Trytes), SubscriberError<Store::Error>>,
) where
    Store: LinkStore,
    LinkGen: ChannelLinkGenerator,
    Unwrap: FnOnce(&Header, Ctx, &Store) -> Result<
        Opened<Store::State, tagged_packet::ContentUnwrap>,
        Store::Error,
    >,

    requires
        call_ensures(
            SubscriberT::<Prng, Store, LinkGen>::handle_tagged_packet::<Ctx, Unwrap>,
            (subscriber, preparsed, info, unwrap),
            result,
        ),
    ensures
        final(subscriber)@.prng == old(subscriber)@.prng,
        final(subscriber)@.opt_psk == old(subscriber)@.opt_psk,
        final(subscriber)@.opt_ntru == old(subscriber)@.opt_ntru,
        final(subscriber)@.appinst == old(subscriber)@.appinst,
        final(subscriber)@.author_mss_pk == old(subscriber)@.author_mss_pk,
        final(subscriber)@.author_ntru_pk == old(subscriber)@.author_ntru_pk,
        final(subscriber)@.link_gen == old(subscriber)@.link_gen,
{
}

/// Any Subscriber can be asked to handle a tagged packet. The function need only be
/// fit to be called on a message that is not refused.
pub proof fn law_handle_tagged_packet_is_allowed<Prng, Store, LinkGen, Ctx, Unwrap>(
    subscriber: &mut SubscriberT<Prng, Store, LinkGen>,
    preparsed: PreparsedMessage<Ctx>,
    info: Store::Info,
    unwrap: Unwrap,
) where
    Store: LinkStore,
    LinkGen: ChannelLinkGenerator,
    Unwrap: FnOnce(&Header, Ctx, &Store) -> Result<
        Opened<Store::State, tagged_packet::ContentUnwrap>,
        Store::Error,
    >,

    requires
        (old(subscriber)@.appinst matches Some(appinst)
            && appinst.base@ == preparsed.header.link.base@) ==> call_requires(
            unwrap,
            (&preparsed.header, preparsed.ctx, &old(subscriber)@.store),
        ),
    ensures
        call_requires(
            SubscriberT::<Prng, Store, LinkGen>::handle_tagged_packet::<Ctx, Unwrap>,
            (subscriber, preparsed, info, unwrap),
        ),
{
}

/// A tagged packet is not unwrapped exactly on these grounds.
pub proof fn law_unwrap_tagged_packet_refusals<Prng, Store, LinkGen, Ctx, Unwrap>(
    subscriber: SubscriberT<Prng, Store, LinkGen>,
    preparsed: PreparsedMessage<Ctx>,
    unwrap: Unwrap,
    result: Result<
        UnwrappedMessage<Store::State, tagged_packet::ContentUnwrap>,
        SubscriberError<Store::Error>,
    >,
) where
    Store: LinkStore,
    LinkGen: ChannelLinkGenerator,
    Unwrap: FnOnce(&Header, Ctx, &Store) -> Result<
        Opened<Store::State, tagged_packet::ContentUnwrap>,
        Store::Error,
    >,

    requires
        call_ensures(
            SubscriberT::<Prng, Store, LinkGen>::unwrap_tagged_packet::<Ctx, Unwrap>,
            (&subscriber, preparsed, unwrap),
            result,
        ),
    ensures
        (result matches Err(error) && error is NotSubscribed) <==> subscriber@.appinst is None,
        (result matches Err(error) && error is BadInstance)
            <==> (subscriber@.appinst matches Some(appinst)
            && appinst.base@ != preparsed.header.link.base@),
        result matches Err(error)
            ==> error is NotSubscribed || error is BadInstance || error is Failed,
{
}

/// Unwrapping a tagged packet that is not refused gives what `unwrap` opened, at the
/// link of the message, or the failure of `unwrap`.
pub proof fn law_unwrap_tagged_packet_answers<Prng, Store, LinkGen, Ctx, Unwrap>(
    subscriber: SubscriberT<Prng, Store, LinkGen>,
    preparsed: PreparsedMessage<Ctx>,
    unwrap: Unwrap,
    result: Result<
        UnwrappedMessage<Store::State, tagged_packet::ContentUnwrap>,
        SubscriberError<Store::Error>,
    >,
) where
    Store: LinkStore,
    LinkGen: ChannelLinkGenerator,
    Unwrap: FnOnce(&Header, Ctx, &Store) -> Result<
        Opened<Store::State, tagged_packet::ContentUnwrap>,
        Store::Error,
    >,

    requires
        call_ensures(
            SubscriberT::<Prng, Store, LinkGen>::unwrap_tagged_packet::<Ctx, Unwrap>,
            (&subscriber, preparsed, unwrap),
            result,
        ),
        subscriber@.appinst matches Some(appinst) && appinst.base@ == preparsed.header.link.base@,
    ensures
        exists|
            outcome: Result<Opened<Store::State, tagged_packet::ContentUnwrap>, Store::Error>,
        | {
            &&& #[trigger] call_ensures(
                unwrap,
                (&preparsed.header, preparsed.ctx, &subscriber@.store),
                outcome,
            )
            &&& match outcome {
                Err(failure) => result matches Err(SubscriberError::Failed(reported)) && reported
                    == failure,
                Ok(opened) => result matches Ok(unwrapped)
                    && unwrapped.link == preparsed.header.link
                    && unwrapped.spongos == opened.spongos && unwrapped.content == opened.content,
            }
        },
{
}

/// Any Subscriber can be asked to unwrap a tagged packet. The function need only be
/// fit to be called on a message that is not refused.
pub proof fn law_unwrap_tagged_packet_is_allowed<Prng, Store, LinkGen, Ctx, Unwrap>(
    subscriber: SubscriberT<Prng, Store, LinkGen>,
    preparsed: PreparsedMessage<Ctx>,
    unwrap: Unwrap,
) where
    Store: LinkStore,
    LinkGen: ChannelLinkGenerator,
    Unwrap: FnOnce(&Header, Ctx, &Store) -> Result<
        Opened<Store::State, tagged_packet::ContentUnwrap>,
        Store::Error,
    >,

    requires
        (subscriber@.appinst matches Some(appinst)
            && appinst.base@ == preparsed.header.link.base@) ==> call_requires(
            unwrap,
            (&preparsed.header, preparsed.ctx, &subscriber@.store),
        ),
    ensures
        call_requires(
            SubscriberT::<Prng, Store, LinkGen>::unwrap_tagged_packet::<Ctx, Unwrap>,
            (&subscriber, preparsed, unwrap),
        ),
{
}

/// Committing a tagged packet records it under its link, with its state and info, and
/// does what handling it does; nothing but a failure of the store keeps it from that.
pub proof fn law_commit_tagged_packet_answers<
    Prng,
    Store: LinkStore,
    LinkGen: ChannelLinkGenerator,
>(
    subscriber: &mut SubscriberT<Prng, Store, LinkGen>,
    unwrapped: UnwrappedMessage<Store::State, tagged_packet::ContentUnwrap>,
    info: Store::Info,
    result: Result<(Trytes, Trytes), SubscriberError<Store::Error>>,
)
    requires
        call_ensures(
            SubscriberT::<Prng, Store, LinkGen>::commit_tagged_packet,
            (subscriber, unwrapped, info),
            result,
        ),
    ensures
        match result {
            Ok(payloads) => {
                &&& Store::updated(
                    old(subscriber)@.store,
                    unwrapped.link.rel@,
                    unwrapped.spongos,
                    info,
                    final(subscriber)@.store,
                    Ok(()),
                )
                &&& old(subscriber)@.store.entries() matches Some(entries)
                    ==> final(subscriber)@.store.entries() == Some(
                    entries.insert(unwrapped.link.rel@, (unwrapped.spongos, info)),
                )
                &&& payloads.0 == unwrapped.content.public_payload
                &&& payloads.1 == unwrapped.content.masked_payload
            },
            Err(error) => error matches SubscriberError::Failed(failure) && Store::updated(
                old(subscriber)@.store,
                unwrapped.link.rel@,
                unwrapped.spongos,
                info,
                final(subscriber)@.store,
                Err(failure),
            ),
        },
        final(subscriber)@.prng == old(subscriber)@.prng,
        final(subscriber)@.opt_psk == old(subscriber)@.opt_psk,
        final(subscriber)@.opt_ntru == old(subscriber)@.opt_ntru,
        final(subscriber)@.appinst == old(subscriber)@.appinst,
        final(subscriber)@.author_mss_pk == old(subscriber)@.author_mss_pk,
        final(subscriber)@.author_ntru_pk == old(subscriber)@.author_ntru_pk,
        final(subscriber)@.link_gen == old(subscriber)@.link_gen,
{
}

/// A tagged packet that is not refused can be committed.
pub proof fn law_commit_tagged_packet_is_allowed<
    Prng,
    Store: LinkStore,
    LinkGen: ChannelLinkGenerator,
>(
    subscriber: &mut SubscriberT<Prng, Store, LinkGen>,
    unwrapped: UnwrappedMessage<Store::State, tagged_packet::ContentUnwrap>,
    info: Store::Info,
)
    requires
        old(subscriber)@.appinst matches Some(appinst) && appinst.base@ == unwrapped.link.base@,
    ensures
        call_requires(
            SubscriberT::<Prng, Store, LinkGen>::commit_tagged_packet,
            (subscriber, unwrapped, info),
        ),
{
}

} // verus!
