//! What one message means for the next: laws of two operations of a Subscriber, one
//! after the other.
use vstd::prelude::*;
use crate::draws::Draws;
use crate::error::SubscriberError;
use crate::keys::{MssPublicKey, NtruPublicKey};
use crate::link::{ChannelLinkGenerator, Header, LinkStore};
use crate::message::{
    announce, change_key, keyload, signed_packet, Opened, PreparedMessage, PreparsedMessage,
};
use crate::subscriber::SubscriberT;
use crate::tbits::{NTrytes, Tbits, Trytes};

verus! {

/// Once a change of key is handled, a packet of the channel is taken for the Author's if
/// and only if it is signed with the new key: one signed with another key never gives its
/// payloads, and one signed with the new key is never reported as badly signed.
pub proof fn law_new_key_verifies_later_packets<Prng, Store, LinkGen, Ctx, UnwrapKey, UnwrapPacket>(
    before: &mut SubscriberT<Prng, Store, LinkGen>,
    change: PreparsedMessage<Ctx>,
    change_info: Store::Info,
    unwrap_key: UnwrapKey,
    changed: Result<(), SubscriberError<Store::Error>>,
    opened_key: Opened<Store::State, change_key::ContentUnwrap>,
    after: &mut SubscriberT<Prng, Store, LinkGen>,
    packet: PreparsedMessage<Ctx>,
    packet_info: Store::Info,
    unwrap_packet: UnwrapPacket,
    received: Result<(Trytes, Trytes), SubscriberError<Store::Error>>,
    opened_packet: Opened<Store::State, signed_packet::ContentUnwrap>,
) where
    Store: LinkStore,
    LinkGen: ChannelLinkGenerator,
    UnwrapKey: FnOnce(&Header, Ctx, &Store, &MssPublicKey) -> Result<
        Opened<Store::State, change_key::ContentUnwrap>,
        Store::Error,
    >,
    UnwrapPacket: FnOnce(&Header, Ctx, &Store) -> Result<
        Opened<Store::State, signed_packet::ContentUnwrap>,
        Store::Error,
    >,

    requires
        call_ensures(
            SubscriberT::<Prng, Store, LinkGen>::handle_change_key::<Ctx, UnwrapKey>,
            (before, change, change_info, unwrap_key),
            changed,
        ),
        forall|outcome: Result<Opened<Store::State, change_key::ContentUnwrap>, Store::Error>|
            #[trigger] call_ensures(
                unwrap_key,
                (
                    &change.header,
                    change.ctx,
                    &old(before)@.store,
                    &old(before)@.author_mss_pk->Some_0,
                ),
                outcome,
            ) ==> outcome == Ok::<_, Store::Error>(opened_key),
        changed is Ok,
        old(after)@ == final(before)@,
        call_ensures(
            SubscriberT::<Prng, Store, LinkGen>::handle_signed_packet::<Ctx, UnwrapPacket>,
            (after, packet, packet_info, unwrap_packet),
            received,
        ),
        forall|outcome: Result<Opened<Store::State, signed_packet::ContentUnwrap>, Store::Error>|
            #[trigger] call_ensures(
                unwrap_packet,
                (&packet.header, packet.ctx, &old(after)@.store),
                outcome,
            ) ==> outcome == Ok::<_, Store::Error>(opened_packet),
    ensures
        received is Ok ==> opened_packet.content.mss_pk.pk@ == opened_key.content.mss_pk.pk@,
        (received matches Err(error) && error is BadSignature) ==> opened_packet.content.mss_pk.pk@
            != opened_key.content.mss_pk.pk@,
        received matches Ok(payloads) ==> payloads.0 == opened_packet.content.public_payload
            && payloads.1 == opened_packet.content.masked_payload,
        packet.header.link.base@ == change.header.link.base@ ==> (received matches Err(error)
            ==> error is BadSignature || error is Failed),
        packet.header.link.base@ != change.header.link.base@ ==> (received matches Err(error)
            && error is BadInstance),
{
}

/// Once an announcement is handled, a keyload goes to the Author if and only if the
/// announcement gave an NTRU public key of the Author's, and then it is for that key.
pub proof fn law_keyload_is_for_the_announced_author<
    'a,
    Prng,
    Store,
    LinkGen,
    Ctx,
    Unwrap,
    RandomNonce,
    RandomKey,
>(
    before: &mut SubscriberT<Prng, Store, LinkGen>,
    announcement: PreparsedMessage<Ctx>,
    info: Store::Info,
    unwrap: Unwrap,
    handled: Result<(), SubscriberError<Store::Error>>,
    opened: Opened<Store::State, announce::ContentUnwrap>,
    after: &'a mut SubscriberT<Prng, Store, LinkGen>,
    link_to: &'a Tbits,
    draws: Draws<RandomNonce, RandomKey>,
    prepared: Result<
        PreparedMessage<'a, Store, keyload::SubscriberContentWrap<'a, Prng>>,
        SubscriberError<Store::Error>,
    >,
) where
    Store: LinkStore,
    LinkGen: ChannelLinkGenerator,
    Unwrap: FnOnce(&Header, Ctx, &Store) -> Result<
        Opened<Store::State, announce::ContentUnwrap>,
        Store::Error,
    >,
    RandomNonce: FnOnce(usize) -> NTrytes,
    RandomKey: FnOnce(usize) -> NTrytes,

    requires
        call_ensures(
            SubscriberT::<Prng, Store, LinkGen>::handle_announcement::<Ctx, Unwrap>,
            (before, announcement, info, unwrap),
            handled,
        ),
        forall|outcome: Result<Opened<Store::State, announce::ContentUnwrap>, Store::Error>|
            #[trigger] call_ensures(
                unwrap,
                (&announcement.header, announcement.ctx, &old(before)@.store),
                outcome,
            ) ==> outcome == Ok::<_, Store::Error>(opened),
        handled is Ok,
        old(after)@ == final(before)@,
        call_ensures(
            SubscriberT::<Prng, Store, LinkGen>::prepare_keyload::<RandomNonce, RandomKey>,
            (after, link_to, draws),
            prepared,
        ),
    ensures
        prepared matches Ok(message) && forall|ntru_pk: NtruPublicKey|
            message.content.ntru_pks == Some(&ntru_pk) <==> opened.content.ntru_pk == Some(ntru_pk),
{
}

} // verus!
