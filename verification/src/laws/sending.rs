//! What sending does, of each operation: what the message to be wrapped holds, what
//! becomes of the wrapped message, and what stays as it was. All of it is said of the
//! arguments, of what the handed functions gave, and of what the store did.
use vstd::prelude::*;
use crate::draws::Draws;
use crate::error::SubscriberError;
use crate::keys::{NtruPublicKey, Psk, PskId};
use crate::link::{ChannelLinkGenerator, ContentType, LinkStore};
use crate::message::{
    keyload, subscribe, tagged_packet, unsubscribe, PreparedMessage, Sealed, TbinaryMessage,
    WrappedMessage,
};
use crate::subscriber::SubscriberT;
use crate::tbits::{NTrytes, Tbits, Trytes};

verus! {

/// A keyload is for the holders of the own pre-shared key, if there is one, and for
/// the Author, if the Author's NTRU public key is known, each whatever the other is.
/// It carries a nonce and a session key drawn for it. It is linked to the given
/// message, whatever channel the Subscriber is bound to, and its header is the
/// one that was derived for it.
pub proof fn law_prepare_keyload_contents<'a, Prng, Store, LinkGen, RandomNonce, RandomKey>(
    subscriber: &'a mut SubscriberT<Prng, Store, LinkGen>,
    link_to: &'a Tbits,
    draws: Draws<RandomNonce, RandomKey>,
    result: Result<
        PreparedMessage<'a, Store, keyload::SubscriberContentWrap<'a, Prng>>,
        SubscriberError<Store::Error>,
    >,
) where
    Store: LinkStore,
    LinkGen: ChannelLinkGenerator,
    RandomNonce: FnOnce(usize) -> NTrytes,
    RandomKey: FnOnce(usize) -> NTrytes,

    requires
        call_ensures(
            SubscriberT::<Prng, Store, LinkGen>::prepare_keyload::<RandomNonce, RandomKey>,
            (subscriber, link_to, draws),
            result,
        ),
    ensures
        result matches Ok(message) && {
            &&& *message.content.link == *link_to
            &&& *message.store == old(subscriber)@.store
            &&& LinkGen::derived(
                old(subscriber)@.link_gen,
                link_to@,
                ContentType::Keyload,
                final(subscriber)@.link_gen,
                message.header,
            )
            &&& forall|pskid: PskId, psk: Psk|
                message.content.psks == Some((&pskid, &psk))
                    <==> old(subscriber)@.opt_psk == Some((pskid, psk))
            &&& forall|ntru_pk: NtruPublicKey|
                message.content.ntru_pks == Some(&ntru_pk)
                    <==> old(subscriber)@.author_ntru_pk == Some(ntru_pk)
            &&& *message.content.prng == old(subscriber)@.prng
            &&& call_ensures(draws.random_nonce, (draws.nonce_size,), message.content.nonce)
            &&& call_ensures(draws.random_key, (draws.key_size,), message.content.key)
        },
{
}

/// Preparing a keyload changes the link generator only.
pub proof fn law_prepare_keyload_keeps<'a, Prng, Store, LinkGen, RandomNonce, RandomKey>(
    subscriber: &'a mut SubscriberT<Prng, Store, LinkGen>,
    link_to: &'a Tbits,
    draws: Draws<RandomNonce, RandomKey>,
    result: Result<
        PreparedMessage<'a, Store, keyload::SubscriberContentWrap<'a, Prng>>,
        SubscriberError<Store::Error>,
    >,
) where
    Store: LinkStore,
    LinkGen: ChannelLinkGenerator,
    RandomNonce: FnOnce(usize) -> NTrytes,
    RandomKey: FnOnce(usize) -> NTrytes,

    requires
        call_ensures(
            SubscriberT::<Prng, Store, LinkGen>::prepare_keyload::<RandomNonce, RandomKey>,
            (subscriber, link_to, draws),
            result,
        ),
    ensures
        final(subscriber)@.prng == old(subscriber)@.prng,
        final(subscriber)@.opt_psk == old(subscriber)@.opt_psk,
        final(subscriber)@.opt_ntru == old(subscriber)@.opt_ntru,
        final(subscriber)@.appinst == old(subscriber)@.appinst,
        final(subscriber)@.author_mss_pk == old(subscriber)@.author_mss_pk,
        final(subscriber)@.author_ntru_pk == old(subscriber)@.author_ntru_pk,
        final(subscriber)@.store == old(subscriber)@.store,
{
}

/// Any Subscriber can be asked to prepare a keyload, if the values for it can be
/// drawn.
pub proof fn law_prepare_keyload_is_allowed<'a, Prng, Store, LinkGen, RandomNonce, RandomKey>(
    subscriber: &'a mut SubscriberT<Prng, Store, LinkGen>,
    link_to: &'a Tbits,
    draws: Draws<RandomNonce, RandomKey>,
) where
    Store: LinkStore,
    LinkGen: ChannelLinkGenerator,
    RandomNonce: FnOnce(usize) -> NTrytes,
    RandomKey: FnOnce(usize) -> NTrytes,

    requires
        call_requires(draws.random_nonce, (draws.nonce_size,)),
        call_requires(draws.random_key, (draws.key_size,)),
    ensures
        call_requires(
            SubscriberT::<Prng, Store, LinkGen>::prepare_keyload::<RandomNonce, RandomKey>,
            (subscriber, link_to, draws),
        ),
{
}

/// A keyload is for the holders of the own pre-shared key, if there is one, and for
/// the Author, if the Author's NTRU public key is known, each whatever the other is.
/// It carries a nonce and a session key drawn for it. It is linked to the given
/// message and handed to `wrap` once. What `wrap` makes of it is recorded under the
/// link derived for it and handed out at that link. Nothing but a failure of `wrap`
/// or of the store keeps it from that.
pub proof fn law_share_keyload_answers<Prng, Store, LinkGen, RandomNonce, RandomKey, Wrap>(
    subscriber: &mut SubscriberT<Prng, Store, LinkGen>,
    link_to: Tbits,
    info: Store::Info,
    draws: Draws<RandomNonce, RandomKey>,
    wrap: Wrap,
    result: Result<TbinaryMessage, SubscriberError<Store::Error>>,
) where
    Store: LinkStore,
    LinkGen: ChannelLinkGenerator,
    RandomNonce: FnOnce(usize) -> NTrytes,
    RandomKey: FnOnce(usize) -> NTrytes,
    Wrap: for <'c, 'd>FnOnce(
        &'d PreparedMessage<'c, Store, keyload::SubscriberContentWrap<'c, Prng>>,
    ) -> Result<Sealed<Store::State>, Store::Error>,

    requires
        call_ensures(
            SubscriberT::<Prng, Store, LinkGen>::share_keyload::<RandomNonce, RandomKey, Wrap>,
            (subscriber, &link_to, info, draws, wrap),
            result,
        ),
    ensures
        exists|
            message: PreparedMessage<Store, keyload::SubscriberContentWrap<Prng>>,
            outcome: Result<Sealed<Store::State>, Store::Error>,
        | {
            &&& #[trigger] call_ensures(wrap, (&message,), outcome)
            &&& *message.content.link == link_to
            &&& *message.store == old(subscriber)@.store
            &&& LinkGen::derived(
                old(subscriber)@.link_gen,
                link_to@,
                ContentType::Keyload,
                final(subscriber)@.link_gen,
                message.header,
            )
            &&& forall|pskid: PskId, psk: Psk|
                message.content.psks == Some((&pskid, &psk))
                    <==> old(subscriber)@.opt_psk == Some((pskid, psk))
            &&& forall|ntru_pk: NtruPublicKey|
                message.content.ntru_pks == Some(&ntru_pk)
                    <==> old(subscriber)@.author_ntru_pk == Some(ntru_pk)
            &&& *message.content.prng == old(subscriber)@.prng
            &&& call_ensures(draws.random_nonce, (draws.nonce_size,), message.content.nonce)
            &&& call_ensures(draws.random_key, (draws.key_size,), message.content.key)
            &&& match outcome {
                Err(failure) => result == Err::<TbinaryMessage, _>(
                    SubscriberError::Failed(failure),
                ) && final(subscriber)@.store == old(subscriber)@.store,
                Ok(sealed) => match result {
                    Ok(sent) => {
                        &&& Store::updated(
                            old(subscriber)@.store,
                            message.header.link.rel@,
                            sealed.spongos,
                            info,
                            final(subscriber)@.store,
                            Ok(()),
                        )
                        &&& old(subscriber)@.store.entries() matches Some(entries)
                            ==> final(subscriber)@.store.entries() == Some(
                            entries.insert(message.header.link.rel@, (sealed.spongos, info)),
                        )
                        &&& sent.link == message.header.link
                        &&& sent.body == sealed.body
                    },
                    Err(error) => error matches SubscriberError::Failed(failure) && Store::updated(
                        old(subscriber)@.store,
                        message.header.link.rel@,
                        sealed.spongos,
                        info,
                        final(subscriber)@.store,
                        Err(failure),
                    ),
                },
            }
        },
{
}

/// Sending a keyload keeps the channel and all keys.
pub proof fn law_share_keyload_keeps<Prng, Store, LinkGen, RandomNonce, RandomKey, Wrap>(
    subscriber: &mut SubscriberT<Prng, Store, LinkGen>,
    link_to: Tbits,
    info: Store::Info,
    draws: Draws<RandomNonce, RandomKey>,
    wrap: Wrap,
    result: Result<TbinaryMessage, SubscriberError<Store::Error>>,
) where
    Store: LinkStore,
    LinkGen: ChannelLinkGenerator,
    RandomNonce: FnOnce(usize) -> NTrytes,
    RandomKey: FnOnce(usize) -> NTrytes,
    Wrap: for <'c, 'd>FnOnce(
        &'d PreparedMessage<'c, Store, keyload::SubscriberContentWrap<'c, Prng>>,
    ) -> Result<Sealed<Store::State>, Store::Error>,

    requires
        call_ensures(
            SubscriberT::<Prng, Store, LinkGen>::share_keyload::<RandomNonce, RandomKey, Wrap>,
            (subscriber, &link_to, info, draws, wrap),
            result,
        ),
    ensures
        final(subscriber)@.prng == old(subscriber)@.prng,
        final(subscriber)@.opt_psk == old(subscriber)@.opt_psk,
        final(subscriber)@.opt_ntru == old(subscriber)@.opt_ntru,
        final(subscriber)@.appinst == old(subscriber)@.appinst,
        final(subscriber)@.author_mss_pk == old(subscriber)@.author_mss_pk,
        final(subscriber)@.author_ntru_pk == old(subscriber)@.author_ntru_pk,
{
}

/// Any Subscriber can be asked to send a keyload. The functions need only be fit to
/// be called for the message that is then prepared.
pub proof fn law_share_keyload_is_allowed<Prng, Store, LinkGen, RandomNonce, RandomKey, Wrap>(
    subscriber: &mut SubscriberT<Prng, Store, LinkGen>,
    link_to: Tbits,
    info: Store::Info,
    draws: Draws<RandomNonce, RandomKey>,
    wrap: Wrap,
) where
    Store: LinkStore,
    LinkGen: ChannelLinkGenerator,
    RandomNonce: FnOnce(usize) -> NTrytes,
    RandomKey: FnOnce(usize) -> NTrytes,
    Wrap: for <'c, 'd>FnOnce(
        &'d PreparedMessage<'c, Store, keyload::SubscriberContentWrap<'c, Prng>>,
    ) -> Result<Sealed<Store::State>, Store::Error>,

    requires
        call_requires(draws.random_nonce, (draws.nonce_size,)),
        call_requires(draws.random_key, (draws.key_size,)),
        forall|message: PreparedMessage<Store, keyload::SubscriberContentWrap<Prng>>|
            {
                &&& *message.content.link == link_to
                &&& *message.store == old(subscriber)@.store
                &&& exists|link_gen: LinkGen| #[trigger]
                    LinkGen::derived(
                        old(subscriber)@.link_gen,
                        link_to@,
                        ContentType::Keyload,
                        link_gen,
                        message.header,
                    )
                &&& forall|pskid: PskId, psk: Psk|
                    message.content.psks == Some((&pskid, &psk))
                        <==> old(subscriber)@.opt_psk == Some((pskid, psk))
                &&& forall|ntru_pk: NtruPublicKey|
                    message.content.ntru_pks == Some(&ntru_pk)
                        <==> old(subscriber)@.author_ntru_pk == Some(ntru_pk)
                &&& *message.content.prng == old(subscriber)@.prng
                &&& call_ensures(draws.random_nonce, (draws.nonce_size,), message.content.nonce)
                &&& call_ensures(draws.random_key, (draws.key_size,), message.content.key)
            } ==> #[trigger] call_requires(wrap, (&message,)),
    ensures
        call_requires(
            SubscriberT::<Prng, Store, LinkGen>::share_keyload::<RandomNonce, RandomKey, Wrap>,
            (subscriber, &link_to, info, draws, wrap),
        ),
{
}

/// A tagged packet carries the public payload as the public one and the masked
/// payload as the masked one. It is linked to the given message, whatever channel the
/// Subscriber is bound to, and its header is the one that was derived for it.
pub proof fn law_prepare_tagged_packet_contents<'a, Prng, Store, LinkGen>(
    subscriber: &'a mut SubscriberT<Prng, Store, LinkGen>,
    link_to: &'a Tbits,
    public_payload: &'a Trytes,
    masked_payload: &'a Trytes,
    result: Result<
        PreparedMessage<'a, Store, tagged_packet::ContentWrap<'a>>,
        SubscriberError<Store::Error>,
    >,
) where
    Store: LinkStore,
    LinkGen: ChannelLinkGenerator,

    requires
        call_ensures(
            SubscriberT::<Prng, Store, LinkGen>::prepare_tagged_packet,
            (subscriber, link_to, public_payload, masked_payload),
            result,
        ),
    ensures
        result matches Ok(message) && {
            &&& *message.content.link == *link_to
            &&& *message.store == old(subscriber)@.store
            &&& LinkGen::derived(
                old(subscriber)@.link_gen,
                link_to@,
                ContentType::TaggedPacket,
                final(subscriber)@.link_gen,
                message.header,
            )
            &&& *message.content.public_payload == *public_payload
            &&& *message.content.masked_payload == *masked_payload
        },
{
}

/// Preparing a tagged packet changes the link generator only.
pub proof fn law_prepare_tagged_packet_keeps<'a, Prng, Store, LinkGen>(
    subscriber: &'a mut SubscriberT<Prng, Store, LinkGen>,
    link_to: &'a Tbits,
    public_payload: &'a Trytes,
    masked_payload: &'a Trytes,
    result: Result<
        PreparedMessage<'a, Store, tagged_packet::ContentWrap<'a>>,
        SubscriberError<Store::Error>,
    >,
) where
    Store: LinkStore,
    LinkGen: ChannelLinkGenerator,

    requires
        call_ensures(
            SubscriberT::<Prng, Store, LinkGen>::prepare_tagged_packet,
            (subscriber, link_to, public_payload, masked_payload),
            result,
        ),
    ensures
        final(subscriber)@.prng == old(subscriber)@.prng,
        final(subscriber)@.opt_psk == old(subscriber)@.opt_psk,
        final(subscriber)@.opt_ntru == old(subscriber)@.opt_ntru,
        final(subscriber)@.appinst == old(subscriber)@.appinst,
        final(subscriber)@.author_mss_pk == old(subscriber)@.author_mss_pk,
        final(subscriber)@.author_ntru_pk == old(subscriber)@.author_ntru_pk,
        final(subscriber)@.store == old(subscriber)@.store,
{
}

/// Any Subscriber can be asked to prepare a tagged packet.
pub proof fn law_prepare_tagged_packet_is_allowed<'a, Prng, Store, LinkGen>(
    subscriber: &'a mut SubscriberT<Prng, Store, LinkGen>,
    link_to: &'a Tbits,
    public_payload: &'a Trytes,
    masked_payload: &'a Trytes,
) where
    Store: LinkStore,
    LinkGen: ChannelLinkGenerator,

    ensures
        call_requires(
            SubscriberT::<Prng, Store, LinkGen>::prepare_tagged_packet,
            (subscriber, link_to, public_payload, masked_payload),
        ),
{
}

/// A tagged packet carries the public payload as the public one and the masked
/// payload as the masked one. It is linked to the given message and handed to `wrap`
/// once. What `wrap` makes of it is recorded under the link derived for it and handed
/// out at that link. Nothing but a failure of `wrap` or of the store keeps it from
/// that.
pub proof fn law_tag_packet_answers<Prng, Store, LinkGen, Wrap>(
    subscriber: &mut SubscriberT<Prng, Store, LinkGen>,
    link_to: Tbits,
    public_payload: Trytes,
    masked_payload: Trytes,
    info: Store::Info,
    wrap: Wrap,
    result: Result<TbinaryMessage, SubscriberError<Store::Error>>,
) where
    Store: LinkStore,
    LinkGen: ChannelLinkGenerator,
    Wrap: for <'c, 'd>FnOnce(
        &'d PreparedMessage<'c, Store, tagged_packet::ContentWrap<'c>>,
    ) -> Result<Sealed<Store::State>, Store::Error>,

    requires
        call_ensures(
            SubscriberT::<Prng, Store, LinkGen>::tag_packet::<Wrap>,
            (subscriber, &link_to, &public_payload, &masked_payload, info, wrap),
            result,
        ),
    ensures
        exists|
            message: PreparedMessage<Store, tagged_packet::ContentWrap>,
            outcome: Result<Sealed<Store::State>, Store::Error>,
        | {
            &&& #[trigger] call_ensures(wrap, (&message,), outcome)
            &&& *message.content.link == link_to
            &&& *message.store == old(subscriber)@.store
            &&& LinkGen::derived(
                old(subscriber)@.link_gen,
                link_to@,
                ContentType::TaggedPacket,
                final(subscriber)@.link_gen,
                message.header,
            )
            &&& *message.content.public_payload == public_payload
            &&& *message.content.masked_payload == masked_payload
            &&& match outcome {
                Err(failure) => result == Err::<TbinaryMessage, _>(
                    SubscriberError::Failed(failure),
                ) && final(subscriber)@.store == old(subscriber)@.store,
                Ok(sealed) => match result {
                    Ok(sent) => {
                        &&& Store::updated(
                            old(subscriber)@.store,
                            message.header.link.rel@,
                            sealed.spongos,
                            info,
                            final(subscriber)@.store,
                            Ok(()),
                        )
                        &&& old(subscriber)@.store.entries() matches Some(entries)
                            ==> final(subscriber)@.store.entries() == Some(
                            entries.insert(message.header.link.rel@, (sealed.spongos, info)),
                        )
                        &&& sent.link == message.header.link
                        &&& sent.body == sealed.body
                    },
                    Err(error) => error matches SubscriberError::Failed(failure) && Store::updated(
                        old(subscriber)@.store,
                        message.header.link.rel@,
                        sealed.spongos,
                        info,
                        final(subscriber)@.store,
                        Err(failure),
                    ),
                },
            }
        },
{
}

/// Sending a tagged packet keeps the channel and all keys.
pub proof fn law_tag_packet_keeps<Prng, Store, LinkGen, Wrap>(
    subscriber: &mut SubscriberT<Prng, Store, LinkGen>,
    link_to: Tbits,
    public_payload: Trytes,
    masked_payload: Trytes,
    info: Store::Info,
    wrap: Wrap,
    result: Result<TbinaryMessage, SubscriberError<Store::Error>>,
) where
    Store: LinkStore,
    LinkGen: ChannelLinkGenerator,
    Wrap: for <'c, 'd>FnOnce(
        &'d PreparedMessage<'c, Store, tagged_packet::ContentWrap<'c>>,
    ) -> Result<Sealed<Store::State>, Store::Error>,

    requires
        call_ensures(
            SubscriberT::<Prng, Store, LinkGen>::tag_packet::<Wrap>,
            (subscriber, &link_to, &public_payload, &masked_payload, info, wrap),
            result,
        ),
    ensures
        final(subscriber)@.prng == old(subscriber)@.prng,
        final(subscriber)@.opt_psk == old(subscriber)@.opt_psk,
        final(subscriber)@.opt_ntru == old(subscriber)@.opt_ntru,
        final(subscriber)@.appinst == old(subscriber)@.appinst,
        final(subscriber)@.author_mss_pk == old(subscriber)@.author_mss_pk,
        final(subscriber)@.author_ntru_pk == old(subscriber)@.author_ntru_pk,
{
}

/// Any Subscriber can be asked to send a tagged packet. The functions need only be
/// fit to be called for the message that is then prepared.
pub proof fn law_tag_packet_is_allowed<Prng, Store, LinkGen, Wrap>(
    subscriber: &mut SubscriberT<Prng, Store, LinkGen>,
    link_to: Tbits,
    public_payload: Trytes,
    masked_payload: Trytes,
    info: Store::Info,
    wrap: Wrap,
) where
    Store: LinkStore,
    LinkGen: ChannelLinkGenerator,
    Wrap: for <'c, 'd>FnOnce(
        &'d PreparedMessage<'c, Store, tagged_packet::ContentWrap<'c>>,
    ) -> Result<Sealed<Store::State>, Store::Error>,

    requires
        forall|message: PreparedMessage<Store, tagged_packet::ContentWrap>|
            {
                &&& *message.content.link == link_to
                &&& *message.store == old(subscriber)@.store
                &&& exists|link_gen: LinkGen| #[trigger]
                    LinkGen::derived(
                        old(subscriber)@.link_gen,
                        link_to@,
                        ContentType::TaggedPacket,
                        link_gen,
                        message.header,
                    )
                &&& *message.content.public_payload == public_payload
                &&& *message.content.masked_payload == masked_payload
            } ==> #[trigger] call_requires(wrap, (&message,)),
    ensures
        call_requires(
            SubscriberT::<Prng, Store, LinkGen>::tag_packet::<Wrap>,
            (subscriber, &link_to, &public_payload, &masked_payload, info, wrap),
        ),
{
}

/// A subscription gives the Author, under the Author's NTRU public key, the public
/// key of the Subscriber's own pair. It carries a nonce and a key for unsubscribing
/// drawn for it. It is linked to the given message, whatever channel the Subscriber
/// is bound to, and its header is the one that was derived for it.
pub proof fn law_prepare_subscribe_contents<'a, Prng, Store, LinkGen, RandomNonce, RandomKey>(
    subscriber: &'a mut SubscriberT<Prng, Store, LinkGen>,
    link_to: &'a Tbits,
    draws: Draws<RandomNonce, RandomKey>,
    result: Result<
        PreparedMessage<'a, Store, subscribe::ContentWrap<'a, Prng>>,
        SubscriberError<Store::Error>,
    >,
) where
    Store: LinkStore,
    LinkGen: ChannelLinkGenerator,
    RandomNonce: FnOnce(usize) -> NTrytes,
    RandomKey: FnOnce(usize) -> NTrytes,

    requires
        call_ensures(
            SubscriberT::<Prng, Store, LinkGen>::prepare_subscribe::<RandomNonce, RandomKey>,
            (subscriber, link_to, draws),
            result,
        ),
        old(subscriber)@.author_ntru_pk is Some,
        old(subscriber)@.opt_ntru is Some,
    ensures
        result matches Ok(message) && {
            &&& *message.content.link == *link_to
            &&& *message.store == old(subscriber)@.store
            &&& LinkGen::derived(
                old(subscriber)@.link_gen,
                link_to@,
                ContentType::Subscribe,
                final(subscriber)@.link_gen,
                message.header,
            )
            &&& old(subscriber)@.opt_ntru matches Some(own)
                && *message.content.subscriber_ntru_pk == own.1
            &&& old(subscriber)@.author_ntru_pk matches Some(author)
                && *message.content.author_ntru_pk == author
            &&& *message.content.prng == old(subscriber)@.prng
            &&& call_ensures(draws.random_nonce, (draws.nonce_size,), message.content.nonce)
            &&& call_ensures(draws.random_key, (draws.key_size,), message.content.unsubscribe_key)
        },
{
}

/// Preparing a subscription changes the link generator only.
pub proof fn law_prepare_subscribe_keeps<'a, Prng, Store, LinkGen, RandomNonce, RandomKey>(
    subscriber: &'a mut SubscriberT<Prng, Store, LinkGen>,
    link_to: &'a Tbits,
    draws: Draws<RandomNonce, RandomKey>,
    result: Result<
        PreparedMessage<'a, Store, subscribe::ContentWrap<'a, Prng>>,
        SubscriberError<Store::Error>,
    >,
) where
    Store: LinkStore,
    LinkGen: ChannelLinkGenerator,
    RandomNonce: FnOnce(usize) -> NTrytes,
    RandomKey: FnOnce(usize) -> NTrytes,

    requires
        call_ensures(
            SubscriberT::<Prng, Store, LinkGen>::prepare_subscribe::<RandomNonce, RandomKey>,
            (subscriber, link_to, draws),
            result,
        ),
    ensures
        final(subscriber)@.prng == old(subscriber)@.prng,
        final(subscriber)@.opt_psk == old(subscriber)@.opt_psk,
        final(subscriber)@.opt_ntru == old(subscriber)@.opt_ntru,
        final(subscriber)@.appinst == old(subscriber)@.appinst,
        final(subscriber)@.author_mss_pk == old(subscriber)@.author_mss_pk,
        final(subscriber)@.author_ntru_pk == old(subscriber)@.author_ntru_pk,
        final(subscriber)@.store == old(subscriber)@.store,
{
}

/// Any Subscriber can be asked to prepare a subscription, if the values for it can be
/// drawn.
pub proof fn law_prepare_subscribe_is_allowed<'a, Prng, Store, LinkGen, RandomNonce, RandomKey>(
    subscriber: &'a mut SubscriberT<Prng, Store, LinkGen>,
    link_to: &'a Tbits,
    draws: Draws<RandomNonce, RandomKey>,
) where
    Store: LinkStore,
    LinkGen: ChannelLinkGenerator,
    RandomNonce: FnOnce(usize) -> NTrytes,
    RandomKey: FnOnce(usize) -> NTrytes,

    requires
        (old(subscriber)@.author_ntru_pk is Some && old(subscriber)@.opt_ntru is Some)
            ==> call_requires(draws.random_nonce, (draws.nonce_size,)),
        (old(subscriber)@.author_ntru_pk is Some && old(subscriber)@.opt_ntru is Some)
            ==> call_requires(draws.random_key, (draws.key_size,)),
    ensures
        call_requires(
            SubscriberT::<Prng, Store, LinkGen>::prepare_subscribe::<RandomNonce, RandomKey>,
            (subscriber, link_to, draws),
        ),
{
}

/// A subscription gives the Author, under the Author's NTRU public key, the public
/// key of the Subscriber's own pair. It carries a nonce and a key for unsubscribing
/// drawn for it. It is linked to the given message and handed to `wrap` once. What
/// `wrap` makes of it is recorded under the link derived for it and handed out at
/// that link. Nothing but a failure of `wrap` or of the store keeps it from that.
pub proof fn law_subscribe_answers<Prng, Store, LinkGen, RandomNonce, RandomKey, Wrap>(
    subscriber: &mut SubscriberT<Prng, Store, LinkGen>,
    link_to: Tbits,
    info: Store::Info,
    draws: Draws<RandomNonce, RandomKey>,
    wrap: Wrap,
    result: Result<TbinaryMessage, SubscriberError<Store::Error>>,
) where
    Store: LinkStore,
    LinkGen: ChannelLinkGenerator,
    RandomNonce: FnOnce(usize) -> NTrytes,
    RandomKey: FnOnce(usize) -> NTrytes,
    Wrap: for <'c, 'd>FnOnce(
        &'d PreparedMessage<'c, Store, subscribe::ContentWrap<'c, Prng>>,
    ) -> Result<Sealed<Store::State>, Store::Error>,

    requires
        call_ensures(
            SubscriberT::<Prng, Store, LinkGen>::subscribe::<RandomNonce, RandomKey, Wrap>,
            (subscriber, &link_to, info, draws, wrap),
            result,
        ),
        old(subscriber)@.author_ntru_pk is Some,
        old(subscriber)@.opt_ntru is Some,
    ensures
        exists|
            message: PreparedMessage<Store, subscribe::ContentWrap<Prng>>,
            outcome: Result<Sealed<Store::State>, Store::Error>,
        | {
            &&& #[trigger] call_ensures(wrap, (&message,), outcome)
            &&& *message.content.link == link_to
            &&& *message.store == old(subscriber)@.store
            &&& LinkGen::derived(
                old(subscriber)@.link_gen,
                link_to@,
                ContentType::Subscribe,
                final(subscriber)@.link_gen,
                message.header,
            )
            &&& old(subscriber)@.opt_ntru matches Some(own)
                && *message.content.subscriber_ntru_pk == own.1
            &&& old(subscriber)@.author_ntru_pk matches Some(author)
                && *message.content.author_ntru_pk == author
            &&& *message.content.prng == old(subscriber)@.prng
            &&& call_ensures(draws.random_nonce, (draws.nonce_size,), message.content.nonce)
            &&& call_ensures(draws.random_key, (draws.key_size,), message.content.unsubscribe_key)
            &&& match outcome {
                Err(failure) => result == Err::<TbinaryMessage, _>(
                    SubscriberError::Failed(failure),
                ) && final(subscriber)@.store == old(subscriber)@.store,
                Ok(sealed) => match result {
                    Ok(sent) => {
                        &&& Store::updated(
                            old(subscriber)@.store,
                            message.header.link.rel@,
                            sealed.spongos,
                            info,
                            final(subscriber)@.store,
                            Ok(()),
                        )
                        &&& old(subscriber)@.store.entries() matches Some(entries)
                            ==> final(subscriber)@.store.entries() == Some(
                            entries.insert(message.header.link.rel@, (sealed.spongos, info)),
                        )
                        &&& sent.link == message.header.link
                        &&& sent.body == sealed.body
                    },
                    Err(error) => error matches SubscriberError::Failed(failure) && Store::updated(
                        old(subscriber)@.store,
                        message.header.link.rel@,
                        sealed.spongos,
                        info,
                        final(subscriber)@.store,
                        Err(failure),
                    ),
                },
            }
        },
{
}

/// Sending a subscription keeps the channel and all keys.
pub proof fn law_subscribe_keeps<Prng, Store, LinkGen, RandomNonce, RandomKey, Wrap>(
    subscriber: &mut SubscriberT<Prng, Store, LinkGen>,
    link_to: Tbits,
    info: Store::Info,
    draws: Draws<RandomNonce, RandomKey>,
    wrap: Wrap,
    result: Result<TbinaryMessage, SubscriberError<Store::Error>>,
) where
    Store: LinkStore,
    LinkGen: ChannelLinkGenerator,
    RandomNonce: FnOnce(usize) -> NTrytes,
    RandomKey: FnOnce(usize) -> NTrytes,
    Wrap: for <'c, 'd>FnOnce(
        &'d PreparedMessage<'c, Store, subscribe::ContentWrap<'c, Prng>>,
    ) -> Result<Sealed<Store::State>, Store::Error>,

    requires
        call_ensures(
            SubscriberT::<Prng, Store, LinkGen>::subscribe::<RandomNonce, RandomKey, Wrap>,
            (subscriber, &link_to, info, draws, wrap),
            result,
        ),
    ensures
        final(subscriber)@.prng == old(subscriber)@.prng,
        final(subscriber)@.opt_psk == old(subscriber)@.opt_psk,
        final(subscriber)@.opt_ntru == old(subscriber)@.opt_ntru,
        final(subscriber)@.appinst == old(subscriber)@.appinst,
        final(subscriber)@.author_mss_pk == old(subscriber)@.author_mss_pk,
        final(subscriber)@.author_ntru_pk == old(subscriber)@.author_ntru_pk,
{
}

/// Any Subscriber can be asked to send a subscription. The functions need only be fit
/// to be called for the message that is then prepared.
pub proof fn law_subscribe_is_allowed<Prng, Store, LinkGen, RandomNonce, RandomKey, Wrap>(
    subscriber: &mut SubscriberT<Prng, Store, LinkGen>,
    link_to: Tbits,
    info: Store::Info,
    draws: Draws<RandomNonce, RandomKey>,
    wrap: Wrap,
) where
    Store: LinkStore,
    LinkGen: ChannelLinkGenerator,
    RandomNonce: FnOnce(usize) -> NTrytes,
    RandomKey: FnOnce(usize) -> NTrytes,
    Wrap: for <'c, 'd>FnOnce(
        &'d PreparedMessage<'c, Store, subscribe::ContentWrap<'c, Prng>>,
    ) -> Result<Sealed<Store::State>, Store::Error>,

    requires
        (old(subscriber)@.author_ntru_pk is Some && old(subscriber)@.opt_ntru is Some)
            ==> call_requires(draws.random_nonce, (draws.nonce_size,)),
        (old(subscriber)@.author_ntru_pk is Some && old(subscriber)@.opt_ntru is Some)
            ==> call_requires(draws.random_key, (draws.key_size,)),
        forall|message: PreparedMessage<Store, subscribe::ContentWrap<Prng>>|
            {
                &&& *message.content.link == link_to
                &&& *message.store == old(subscriber)@.store
                &&& exists|link_gen: LinkGen| #[trigger]
                    LinkGen::derived(
                        old(subscriber)@.link_gen,
                        link_to@,
                        ContentType::Subscribe,
                        link_gen,
                        message.header,
                    )
                &&& old(subscriber)@.opt_ntru matches Some(own)
                    && *message.content.subscriber_ntru_pk == own.1
                &&& old(subscriber)@.author_ntru_pk matches Some(author)
                    && *message.content.author_ntru_pk == author
                &&& *message.content.prng == old(subscriber)@.prng
                &&& call_ensures(draws.random_nonce, (draws.nonce_size,), message.content.nonce)
                &&& call_ensures(
                    draws.random_key,
                    (draws.key_size,),
                    message.content.unsubscribe_key,
                )
            } ==> #[trigger] call_requires(wrap, (&message,)),
    ensures
        call_requires(
            SubscriberT::<Prng, Store, LinkGen>::subscribe::<RandomNonce, RandomKey, Wrap>,
            (subscriber, &link_to, info, draws, wrap),
        ),
{
}

/// Preparing a subscription is refused exactly for want of the Author's NTRU public
/// key, or else of an own key pair, and then nothing changes.
pub proof fn law_prepare_subscribe_refusals<'a, Prng, Store, LinkGen, RandomNonce, RandomKey>(
    subscriber: &'a mut SubscriberT<Prng, Store, LinkGen>,
    link_to: &'a Tbits,
    draws: Draws<RandomNonce, RandomKey>,
    result: Result<
        PreparedMessage<'a, Store, subscribe::ContentWrap<'a, Prng>>,
        SubscriberError<Store::Error>,
    >,
) where
    Store: LinkStore,
    LinkGen: ChannelLinkGenerator,
    RandomNonce: FnOnce(usize) -> NTrytes,
    RandomKey: FnOnce(usize) -> NTrytes,

    requires
        call_ensures(
            SubscriberT::<Prng, Store, LinkGen>::prepare_subscribe::<RandomNonce, RandomKey>,
            (subscriber, link_to, draws),
            result,
        ),
    ensures
        (result matches Err(error) && error is NoAuthorNtruPublicKey)
            <==> old(subscriber)@.author_ntru_pk is None,
        (result matches Err(error) && error is NoOwnNtruKeyPair)
            <==> (old(subscriber)@.author_ntru_pk is Some
            && old(subscriber)@.opt_ntru is None),
        result matches Err(error) ==> error is NoAuthorNtruPublicKey || error is NoOwnNtruKeyPair,
        (result matches Err(error) && !(error is Failed))
            ==> final(subscriber)@ == old(subscriber)@,
{
}

/// Subscribing is refused exactly for want of the Author's NTRU public key, or else
/// of an own key pair, and then nothing changes.
pub proof fn law_subscribe_refusals<Prng, Store, LinkGen, RandomNonce, RandomKey, Wrap>(
    subscriber: &mut SubscriberT<Prng, Store, LinkGen>,
    link_to: Tbits,
    info: Store::Info,
    draws: Draws<RandomNonce, RandomKey>,
    wrap: Wrap,
    result: Result<TbinaryMessage, SubscriberError<Store::Error>>,
) where
    Store: LinkStore,
    LinkGen: ChannelLinkGenerator,
    RandomNonce: FnOnce(usize) -> NTrytes,
    RandomKey: FnOnce(usize) -> NTrytes,
    Wrap: for <'c, 'd>FnOnce(
        &'d PreparedMessage<'c, Store, subscribe::ContentWrap<'c, Prng>>,
    ) -> Result<Sealed<Store::State>, Store::Error>,

    requires
        call_ensures(
            SubscriberT::<Prng, Store, LinkGen>::subscribe::<RandomNonce, RandomKey, Wrap>,
            (subscriber, &link_to, info, draws, wrap),
            result,
        ),
    ensures
        (result matches Err(error) && error is NoAuthorNtruPublicKey)
            <==> old(subscriber)@.author_ntru_pk is None,
        (result matches Err(error) && error is NoOwnNtruKeyPair)
            <==> (old(subscriber)@.author_ntru_pk is Some
            && old(subscriber)@.opt_ntru is None),
        result matches Err(error)
            ==> error is NoAuthorNtruPublicKey || error is NoOwnNtruKeyPair || error is Failed,
        (result matches Err(error) && !(error is Failed))
            ==> final(subscriber)@ == old(subscriber)@,
{
}

/// An unsubscription is linked to the given message and to no other, whatever channel
/// the Subscriber is bound to, and its header is the one that was derived for it.
pub proof fn law_prepare_unsubscribe_contents<'a, Prng, Store, LinkGen>(
    subscriber: &'a mut SubscriberT<Prng, Store, LinkGen>,
    link_to: &'a Tbits,
    result: Result<
        PreparedMessage<'a, Store, unsubscribe::ContentWrap<'a>>,
        SubscriberError<Store::Error>,
    >,
) where
    Store: LinkStore,
    LinkGen: ChannelLinkGenerator,

    requires
        call_ensures(
            SubscriberT::<Prng, Store, LinkGen>::prepare_unsubscribe,
            (subscriber, link_to),
            result,
        ),
    ensures
        result matches Ok(message) && {
            &&& *message.content.link == *link_to
            &&& *message.store == old(subscriber)@.store
            &&& LinkGen::derived(
                old(subscriber)@.link_gen,
                link_to@,
                ContentType::Unsubscribe,
                final(subscriber)@.link_gen,
                message.header,
            )

        },
{
}

/// Preparing an unsubscription changes the link generator only.
pub proof fn law_prepare_unsubscribe_keeps<'a, Prng, Store, LinkGen>(
    subscriber: &'a mut SubscriberT<Prng, Store, LinkGen>,
    link_to: &'a Tbits,
    result: Result<
        PreparedMessage<'a, Store, unsubscribe::ContentWrap<'a>>,
        SubscriberError<Store::Error>,
    >,
) where
    Store: LinkStore,
    LinkGen: ChannelLinkGenerator,

    requires
        call_ensures(
            SubscriberT::<Prng, Store, LinkGen>::prepare_unsubscribe,
            (subscriber, link_to),
            result,
        ),
    ensures
        final(subscriber)@.prng == old(subscriber)@.prng,
        final(subscriber)@.opt_psk == old(subscriber)@.opt_psk,
        final(subscriber)@.opt_ntru == old(subscriber)@.opt_ntru,
        final(subscriber)@.appinst == old(subscriber)@.appinst,
        final(subscriber)@.author_mss_pk == old(subscriber)@.author_mss_pk,
        final(subscriber)@.author_ntru_pk == old(subscriber)@.author_ntru_pk,
        final(subscriber)@.store == old(subscriber)@.store,
{
}

/// Any Subscriber can be asked to prepare an unsubscription.
pub proof fn law_prepare_unsubscribe_is_allowed<'a, Prng, Store, LinkGen>(
    subscriber: &'a mut SubscriberT<Prng, Store, LinkGen>,
    link_to: &'a Tbits,
) where
    Store: LinkStore,
    LinkGen: ChannelLinkGenerator,

    ensures
        call_requires(
            SubscriberT::<Prng, Store, LinkGen>::prepare_unsubscribe,
            (subscriber, link_to),
        ),
{
}

/// An unsubscription is linked to the given message and to no other, whatever channel
/// the Subscriber is bound to. It is handed to `wrap` once. What `wrap` makes of it is
/// recorded under the link derived for it and handed out at that link. Nothing but a
/// failure of `wrap` or of the store keeps it from that.
pub proof fn law_unsubscribe_answers<Prng, Store, LinkGen, Wrap>(
    subscriber: &mut SubscriberT<Prng, Store, LinkGen>,
    link_to: Tbits,
    info: Store::Info,
    wrap: Wrap,
    result: Result<TbinaryMessage, SubscriberError<Store::Error>>,
) where
    Store: LinkStore,
    LinkGen: ChannelLinkGenerator,
    Wrap: for <'c, 'd>FnOnce(
        &'d PreparedMessage<'c, Store, unsubscribe::ContentWrap<'c>>,
    ) -> Result<Sealed<Store::State>, Store::Error>,

    requires
        call_ensures(
            SubscriberT::<Prng, Store, LinkGen>::unsubscribe::<Wrap>,
            (subscriber, &link_to, info, wrap),
            result,
        ),
    ensures
        exists|
            message: PreparedMessage<Store, unsubscribe::ContentWrap>,
            outcome: Result<Sealed<Store::State>, Store::Error>,
        | {
            &&& #[trigger] call_ensures(wrap, (&message,), outcome)
            &&& *message.content.link == link_to
            &&& *message.store == old(subscriber)@.store
            &&& LinkGen::derived(
                old(subscriber)@.link_gen,
                link_to@,
                ContentType::Unsubscribe,
                final(subscriber)@.link_gen,
                message.header,
            )

            &&& match outcome {
                Err(failure) => result == Err::<TbinaryMessage, _>(
                    SubscriberError::Failed(failure),
                ) && final(subscriber)@.store == old(subscriber)@.store,
                Ok(sealed) => match result {
                    Ok(sent) => {
                        &&& Store::updated(
                            old(subscriber)@.store,
                            message.header.link.rel@,
                            sealed.spongos,
                            info,
                            final(subscriber)@.store,
                            Ok(()),
                        )
                        &&& old(subscriber)@.store.entries() matches Some(entries)
                            ==> final(subscriber)@.store.entries() == Some(
                            entries.insert(message.header.link.rel@, (sealed.spongos, info)),
                        )
                        &&& sent.link == message.header.link
                        &&& sent.body == sealed.body
                    },
                    Err(error) => error matches SubscriberError::Failed(failure) && Store::updated(
                        old(subscriber)@.store,
                        message.header.link.rel@,
                        sealed.spongos,
                        info,
                        final(subscriber)@.store,
                        Err(failure),
                    ),
                },
            }
        },
{
}

/// Sending an unsubscription keeps the channel and all keys.
pub proof fn law_unsubscribe_keeps<Prng, Store, LinkGen, Wrap>(
    subscriber: &mut SubscriberT<Prng, Store, LinkGen>,
    link_to: Tbits,
    info: Store::Info,
    wrap: Wrap,
    result: Result<TbinaryMessage, SubscriberError<Store::Error>>,
) where
    Store: LinkStore,
    LinkGen: ChannelLinkGenerator,
    Wrap: for <'c, 'd>FnOnce(
        &'d PreparedMessage<'c, Store, unsubscribe::ContentWrap<'c>>,
    ) -> Result<Sealed<Store::State>, Store::Error>,

    requires
        call_ensures(
            SubscriberT::<Prng, Store, LinkGen>::unsubscribe::<Wrap>,
            (subscriber, &link_to, info, wrap),
            result,
        ),
    ensures
        final(subscriber)@.prng == old(subscriber)@.prng,
        final(subscriber)@.opt_psk == old(subscriber)@.opt_psk,
        final(subscriber)@.opt_ntru == old(subscriber)@.opt_ntru,
        final(subscriber)@.appinst == old(subscriber)@.appinst,
        final(subscriber)@.author_mss_pk == old(subscriber)@.author_mss_pk,
        final(subscriber)@.author_ntru_pk == old(subscriber)@.author_ntru_pk,
{
}

/// Any Subscriber can be asked to send an unsubscription. The functions need only be
/// fit to be called for the message that is then prepared.
pub proof fn law_unsubscribe_is_allowed<Prng, Store, LinkGen, Wrap>(
    subscriber: &mut SubscriberT<Prng, Store, LinkGen>,
    link_to: Tbits,
    info: Store::Info,
    wrap: Wrap,
) where
    Store: LinkStore,
    LinkGen: ChannelLinkGenerator,
    Wrap: for <'c, 'd>FnOnce(
        &'d PreparedMessage<'c, Store, unsubscribe::ContentWrap<'c>>,
    ) -> Result<Sealed<Store::State>, Store::Error>,

    requires
        forall|message: PreparedMessage<Store, unsubscribe::ContentWrap>|
            {
                &&& *message.content.link == link_to
                &&& *message.store == old(subscriber)@.store
                &&& exists|link_gen: LinkGen| #[trigger]
                    LinkGen::derived(
                        old(subscriber)@.link_gen,
                        link_to@,
                        ContentType::Unsubscribe,
                        link_gen,
                        message.header,
                    )
            } ==> #[trigger] call_requires(wrap, (&message,)),
    ensures
        call_requires(
            SubscriberT::<Prng, Store, LinkGen>::unsubscribe::<Wrap>,
            (subscriber, &link_to, info, wrap),
        ),
{
}

/// Committing a wrapped message records it under its link, with its state and info,
/// and hands it out as it is; nothing but a failure of the store keeps it from that.
pub proof fn law_commit_wrapped_answers<Prng, Store: LinkStore, LinkGen: ChannelLinkGenerator>(
    subscriber: &mut SubscriberT<Prng, Store, LinkGen>,
    wrapped: WrappedMessage<Store::State>,
    info: Store::Info,
    result: Result<TbinaryMessage, SubscriberError<Store::Error>>,
)
    requires
        call_ensures(
            SubscriberT::<Prng, Store, LinkGen>::commit_wrapped,
            (subscriber, wrapped, info),
            result,
        ),
    ensures
        match result {
            Ok(sent) => {
                &&& Store::updated(
                    old(subscriber)@.store,
                    wrapped.message.link.rel@,
                    wrapped.spongos,
                    info,
                    final(subscriber)@.store,
                    Ok(()),
                )
                &&& old(subscriber)@.store.entries() matches Some(entries)
                    ==> final(subscriber)@.store.entries() == Some(
                    entries.insert(wrapped.message.link.rel@, (wrapped.spongos, info)),
                )
                &&& sent.link == wrapped.message.link
                &&& sent.body == wrapped.message.body
            },
            Err(error) => error matches SubscriberError::Failed(failure) && Store::updated(
                old(subscriber)@.store,
                wrapped.message.link.rel@,
                wrapped.spongos,
                info,
                final(subscriber)@.store,
                Err(failure),
            ),
        },
        final(subscriber)@.prng == old(subscriber)@.prng,
        final(subscriber)@.opt_psk == old(subscriber)@.opt_psk,
        final(subscriber)@.opt_ntru == old(subscriber)@.opt_ntru,
        final(subscriber)@.appinst == old(subscriber)@.appinst,
        final(subscriber)@.author_mss_pk == old(subscriber)@.author_mss_pk,
        final(subscriber)@.author_ntru_pk == old(subscriber)@.author_ntru_pk,
        final(subscriber)@.link_gen == old(subscriber)@.link_gen,
        call_requires(
            SubscriberT::<Prng, Store, LinkGen>::commit_wrapped,
            (subscriber, wrapped, info),
        ),
{
}

} // verus!
