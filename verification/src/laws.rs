//! Laws of the Subscriber: what holds across operations. The modules under this one
//! say of each function what a caller may rely on, in the function's arguments and
//! results alone.
use vstd::prelude::*;
use crate::error::{Refusal, SubscriberError};
use crate::key_ring::KeyRing;
use crate::keys::{NtruPrivateKey, Psk};
use crate::link::{ChannelLinkGenerator, Header, Link, LinkStore};
use crate::message::{
    announce, change_key, signed_packet, subscribe, tagged_packet, Opened, PreparedMessage,
    PreparsedMessage, Sealed, TbinaryMessage,
};
use crate::state::SubscriberState;
use crate::tbits::{Tbits, Trytes};

pub mod chains;
pub mod creation;
pub mod effects;
pub mod receiving;
pub mod sending;
pub mod values;

verus! {

/// What one step leads to is reached.
pub proof fn law_step_reaches<Prng, Store: LinkStore, LinkGen: ChannelLinkGenerator>(
    pre: SubscriberState<Prng, Store, LinkGen>,
    post: SubscriberState<Prng, Store, LinkGen>,
)
    requires
        SubscriberState::step(pre, post),
    ensures
        SubscriberState::reaches(pre, post),
{
    let states = seq![pre, post];
    assert(SubscriberState::run(states));
}

/// What is reached in two stages is reached.
pub proof fn law_reaching_is_transitive<
    Prng,
    Store: LinkStore,
    LinkGen: ChannelLinkGenerator,
>(
    pre: SubscriberState<Prng, Store, LinkGen>,
    mid: SubscriberState<Prng, Store, LinkGen>,
    post: SubscriberState<Prng, Store, LinkGen>,
)
    requires
        SubscriberState::reaches(pre, mid),
        SubscriberState::reaches(mid, post),
    ensures
        SubscriberState::reaches(pre, post),
{
    let a = choose|states: Seq<SubscriberState<Prng, Store, LinkGen>>| #[trigger]
        SubscriberState::run(states) && states.first() == pre && states.last() == mid;
    let b = choose|states: Seq<SubscriberState<Prng, Store, LinkGen>>| #[trigger]
        SubscriberState::run(states) && states.first() == mid && states.last() == post;
    let joined = a + b.drop_first();
    assert forall|i: int| 0 <= i < joined.len() - 1 implies SubscriberState::step(
        #[trigger] joined[i],
        joined[i + 1],
    ) by {
        if i < a.len() - 1 {
            assert(SubscriberState::step(a[i], a[i + 1]));
        } else {
            let j = i - (a.len() - 1);
            assert(SubscriberState::step(b[j], b[j + 1]));
            assert(joined[i] == b[j]);
        }
    }
    assert(SubscriberState::run(joined));
    assert(joined.last() == post);
}

/// What two steps lead to is reached.
pub proof fn law_two_steps_reach<Prng, Store: LinkStore, LinkGen: ChannelLinkGenerator>(
    pre: SubscriberState<Prng, Store, LinkGen>,
    post: SubscriberState<Prng, Store, LinkGen>,
)
    requires
        SubscriberState::two_steps(pre, post),
    ensures
        SubscriberState::reaches(pre, post),
{
    let mid = choose|mid: SubscriberState<Prng, Store, LinkGen>| #[trigger]
        SubscriberState::step(pre, mid) && #[trigger] SubscriberState::step(mid, post);
    law_step_reaches(pre, mid);
    law_step_reaches(mid, post);
    law_reaching_is_transitive(pre, mid, post);
}

/// What a single step keeps: own keys, PRNG, well-formedness, and the channel
/// once there is one.
proof fn lemma_step_keeps<Prng, Store: LinkStore, LinkGen: ChannelLinkGenerator>(
    pre: SubscriberState<Prng, Store, LinkGen>,
    post: SubscriberState<Prng, Store, LinkGen>,
)
    requires
        SubscriberState::step(pre, post),
    ensures
        post.opt_psk == pre.opt_psk,
        post.opt_ntru == pre.opt_ntru,
        post.prng == pre.prng,
        pre.well_formed() ==> post.well_formed(),
        pre.appinst is Some ==> post.channel() == pre.channel(),
{
}

/// What every run keeps.
proof fn lemma_run_keeps<Prng, Store: LinkStore, LinkGen: ChannelLinkGenerator>(
    states: Seq<SubscriberState<Prng, Store, LinkGen>>,
)
    requires
        SubscriberState::run(states),
    ensures
        states.last().opt_psk == states.first().opt_psk,
        states.last().opt_ntru == states.first().opt_ntru,
        states.last().prng == states.first().prng,
        states.first().well_formed() ==> states.last().well_formed(),
        states.first().appinst is Some ==> states.last().channel() == states.first().channel(),
    decreases states.len(),
{
    if states.len() > 1 {
        let before = states.drop_last();
        assert forall|i: int| 0 <= i < before.len() - 1 implies SubscriberState::step(
            #[trigger] before[i],
            before[i + 1],
        ) by {
            assert(SubscriberState::step(states[i], states[i + 1]));
        }
        lemma_run_keeps(before);
        let last = states.len() - 2;
        assert(SubscriberState::step(states[last], states[last + 1]));
        lemma_step_keeps(states[last], states[last + 1]);
    }
}

/// Whatever a Subscriber that starts well-formed (as `gen` makes it) goes
/// through, it stays well-formed: it knows the Author's signing key as long as
/// it is registered to a channel, and no Author's key otherwise.
pub proof fn law_run_stays_well_formed<Prng, Store: LinkStore, LinkGen: ChannelLinkGenerator>(
    pre: SubscriberState<Prng, Store, LinkGen>,
    post: SubscriberState<Prng, Store, LinkGen>,
)
    requires
        SubscriberState::reaches(pre, post),
        pre.well_formed(),
    ensures
        post.well_formed(),
{
    lemma_run_keeps(
        choose|states: Seq<SubscriberState<Prng, Store, LinkGen>>| #[trigger]
            SubscriberState::run(states) && states.first() == pre && states.last() == post,
    );
}

/// Once registered, a Subscriber stays registered to the same announcement,
/// whatever it goes through.
pub proof fn law_binding_is_permanent<Prng, Store: LinkStore, LinkGen: ChannelLinkGenerator>(
    pre: SubscriberState<Prng, Store, LinkGen>,
    post: SubscriberState<Prng, Store, LinkGen>,
)
    requires
        SubscriberState::reaches(pre, post),
        pre.appinst is Some,
    ensures
        post.channel() == pre.channel(),
{
    lemma_run_keeps(
        choose|states: Seq<SubscriberState<Prng, Store, LinkGen>>| #[trigger]
            SubscriberState::run(states) && states.first() == pre && states.last() == post,
    );
}

/// No operation touches the Subscriber's own keys or its PRNG.
pub proof fn law_own_keys_never_change<Prng, Store: LinkStore, LinkGen: ChannelLinkGenerator>(
    pre: SubscriberState<Prng, Store, LinkGen>,
    post: SubscriberState<Prng, Store, LinkGen>,
)
    requires
        SubscriberState::reaches(pre, post),
    ensures
        post.opt_psk == pre.opt_psk,
        post.opt_ntru == pre.opt_ntru,
        post.prng == pre.prng,
{
    lemma_run_keeps(
        choose|states: Seq<SubscriberState<Prng, Store, LinkGen>>| #[trigger]
            SubscriberState::run(states) && states.first() == pre && states.last() == post,
    );
}

/// A bound Subscriber is never rebound: whatever an announcement says and however
/// it is answered, the channel stays the same, and an announcement at another link
/// is refused and changes nothing.
pub proof fn law_bound_subscriber_is_never_rebound<
    Prng,
    Store: LinkStore,
    LinkGen: ChannelLinkGenerator,
    Ctx,
    Unwrap,
>(
    pre: SubscriberState<Prng, Store, LinkGen>,
    preparsed: PreparsedMessage<Ctx>,
    info: Store::Info,
    unwrap: Unwrap,
    post: SubscriberState<Prng, Store, LinkGen>,
    result: Result<(), SubscriberError<Store::Error>>,
) where
    Unwrap: FnOnce(&Header, Ctx, &Store) -> Result<
        Opened<Store::State, announce::ContentUnwrap>,
        Store::Error,
    >,

    requires
        pre.appinst is Some,
        SubscriberState::announcement_received(pre, preparsed, info, unwrap, post, result),
    ensures
        post.channel() == pre.channel(),
        pre.channel() != Some(preparsed.header.link@) ==> result is Err && post == pre,
{
}

/// The announcement of the own channel may be repeated: it is not refused, and as
/// long as it says the same, the channel and the Author's keys stay as the first
/// one set them.
pub proof fn law_repeated_announcement_changes_nothing<
    Prng,
    Store: LinkStore,
    LinkGen: ChannelLinkGenerator,
    Ctx,
    First,
    Second,
>(
    pre: SubscriberState<Prng, Store, LinkGen>,
    first: PreparsedMessage<Ctx>,
    first_info: Store::Info,
    first_unwrap: First,
    mid: SubscriberState<Prng, Store, LinkGen>,
    second: PreparsedMessage<Ctx>,
    second_info: Store::Info,
    second_unwrap: Second,
    post: SubscriberState<Prng, Store, LinkGen>,
    result: Result<(), SubscriberError<Store::Error>>,
) where
    First: FnOnce(&Header, Ctx, &Store) -> Result<
        Opened<Store::State, announce::ContentUnwrap>,
        Store::Error,
    >,
    Second: FnOnce(&Header, Ctx, &Store) -> Result<
        Opened<Store::State, announce::ContentUnwrap>,
        Store::Error,
    >,

    requires
        SubscriberState::announcement_received(pre, first, first_info, first_unwrap, mid, Ok(())),
        SubscriberState::announcement_received(mid, second, second_info, second_unwrap, post, result),
        second.header.link@ == first.header.link@,
        forall|
            a: Opened<Store::State, announce::ContentUnwrap>,
            b: Opened<Store::State, announce::ContentUnwrap>,
        |
            #[trigger] call_ensures(first_unwrap, (&first.header, first.ctx, &pre.store), Ok(a))
                && #[trigger] call_ensures(
                second_unwrap,
                (&second.header, second.ctx, &mid.store),
                Ok(b),
            ) ==> a.content@ == b.content@,
    ensures
        mid.announcement_refusal(second.header.link) is None,
        result matches Err(error) ==> error is Failed,
        post.channel() == mid.channel(),
        post.author_keys() == mid.author_keys(),
{
}

/// An announcement that was handled opens its channel for good: whatever the
/// Subscriber goes through afterwards, a message is taken for one of its channel
/// if and only if the base of its link is the announced one. Nothing else of the
/// message counts.
pub proof fn law_announced_channel_stays_open<
    Prng,
    Store: LinkStore,
    LinkGen: ChannelLinkGenerator,
    Ctx,
    Unwrap,
>(
    pre: SubscriberState<Prng, Store, LinkGen>,
    preparsed: PreparsedMessage<Ctx>,
    info: Store::Info,
    unwrap: Unwrap,
    mid: SubscriberState<Prng, Store, LinkGen>,
    post: SubscriberState<Prng, Store, LinkGen>,
    link: Link,
) where
    Unwrap: FnOnce(&Header, Ctx, &Store) -> Result<
        Opened<Store::State, announce::ContentUnwrap>,
        Store::Error,
    >,

    requires
        SubscriberState::announcement_received(pre, preparsed, info, unwrap, mid, Ok(())),
        SubscriberState::reaches(mid, post),
    ensures
        post.instance_refusal(link) is None <==> link.base@ == preparsed.header.link.base@,
        link.base@ != preparsed.header.link.base@ ==> post.instance_refusal(link) == Some(
            Refusal::BadInstance,
        ),
{
    law_binding_is_permanent(mid, post);
    assert(post.channel() == Some(preparsed.header.link@));
}

/// Both stores hold the same sponge state for the message at `rel`.
pub open spec fn same_state<A: LinkStore, B: LinkStore<State = A::State>>(
    a: A,
    b: B,
    rel: Seq<u8>,
) -> bool {
    &&& a.entries() matches Some(own)
    &&& b.entries() matches Some(other)
    &&& own.dom().contains(rel)
    &&& other.dom().contains(rel)
    &&& own[rel].0 == other[rel].0
}

/// Unwrapping inverts wrapping, of tagged packets: what `wrap` made of a packet is
/// opened by `unwrap`, over a store with the same state for the message that the
/// packet is linked to, and holds the payloads of the packet. `parsed` tells which
/// received messages were parsed from a sent one.
pub open spec fn unwrapping_inverts_wrapping<A, B, Ctx, Wrap, Unwrap>(
    wrap: Wrap,
    parsed: spec_fn(TbinaryMessage, PreparsedMessage<Ctx>) -> bool,
    unwrap: Unwrap,
) -> bool where
    A: LinkStore,
    B: LinkStore<State = A::State>,
    Wrap: for <'c, 'd>FnOnce(
        &'d PreparedMessage<'c, A, tagged_packet::ContentWrap<'c>>,
    ) -> Result<Sealed<A::State>, A::Error>,
    Unwrap: FnOnce(&Header, Ctx, &B) -> Result<
        Opened<B::State, tagged_packet::ContentUnwrap>,
        B::Error,
    >,
 {
    forall|
        message: PreparedMessage<A, tagged_packet::ContentWrap>,
        sealed: Sealed<A::State>,
        preparsed: PreparsedMessage<Ctx>,
        store: B,
        outcome: Result<Opened<B::State, tagged_packet::ContentUnwrap>, B::Error>,
    |
        #[trigger] call_ensures(wrap, (&message,), Ok(sealed)) && #[trigger] call_ensures(
            unwrap,
            (&preparsed.header, preparsed.ctx, &store),
            outcome,
        ) && parsed(
            TbinaryMessage { link: message.header.link, body: sealed.body },
            preparsed,
        ) && same_state(*message.store, store, message.content.link@) ==> {
            &&& outcome matches Ok(opened)
            &&& opened.content.public_payload@ == message.content.public_payload@
            &&& opened.content.masked_payload@ == message.content.masked_payload@
        }
}

/// A tagged packet gives back what was tagged: a receiver in the channel of the
/// message, whose store has the same state for the message linked to and did not
/// fail to take the packet (a failure, if there is one, is unwrapping's), gets the
/// public and the masked payload, in that order. That unwrapping inverts wrapping is
/// the message layer's to grant.
pub proof fn law_tagged_packet_round_trip<
    SenderPrng,
    SenderStore,
    SenderLinkGen,
    ReceiverPrng,
    ReceiverStore,
    ReceiverLinkGen,
    Ctx,
    Wrap,
    Unwrap,
>(
    sender: SubscriberState<SenderPrng, SenderStore, SenderLinkGen>,
    link_to: Tbits,
    public_payload: Trytes,
    masked_payload: Trytes,
    info: SenderStore::Info,
    wrap: Wrap,
    sender_post: SubscriberState<SenderPrng, SenderStore, SenderLinkGen>,
    message: TbinaryMessage,
    parsed: spec_fn(TbinaryMessage, PreparsedMessage<Ctx>) -> bool,
    receiver: SubscriberState<ReceiverPrng, ReceiverStore, ReceiverLinkGen>,
    preparsed: PreparsedMessage<Ctx>,
    receiver_info: ReceiverStore::Info,
    unwrap: Unwrap,
    receiver_post: SubscriberState<ReceiverPrng, ReceiverStore, ReceiverLinkGen>,
    result: Result<(Trytes, Trytes), SubscriberError<ReceiverStore::Error>>,
) where
    SenderStore: LinkStore,
    SenderLinkGen: ChannelLinkGenerator,
    ReceiverStore: LinkStore<State = SenderStore::State>,
    ReceiverLinkGen: ChannelLinkGenerator,
    Wrap: for <'c, 'd>FnOnce(
        &'d PreparedMessage<'c, SenderStore, tagged_packet::ContentWrap<'c>>,
    ) -> Result<Sealed<SenderStore::State>, SenderStore::Error>,
    Unwrap: FnOnce(&Header, Ctx, &ReceiverStore) -> Result<
        Opened<ReceiverStore::State, tagged_packet::ContentUnwrap>,
        ReceiverStore::Error,
    >,

    requires
        SubscriberState::packet_tagged(
            sender,
            link_to,
            public_payload,
            masked_payload,
            info,
            wrap,
            sender_post,
            Ok(message),
        ),
        parsed(message, preparsed),
        preparsed.header.link@ == message.link@,
        receiver.appinst matches Some(appinst) && appinst.base@ == message.link.base@,
        same_state(sender.store, receiver.store, link_to@),
        SubscriberState::tagged_packet_received(
            receiver,
            preparsed,
            receiver_info,
            unwrap,
            receiver_post,
            result,
        ),
        result matches Err(SubscriberError::Failed(failure)) ==> call_ensures(
            unwrap,
            (&preparsed.header, preparsed.ctx, &receiver.store),
            Err(failure),
        ),
        unwrapping_inverts_wrapping::<SenderStore, ReceiverStore, Ctx, Wrap, Unwrap>(
            wrap,
            parsed,
            unwrap,
        ),
    ensures
        result matches Ok(payloads) && payloads.0@ == public_payload@ && payloads.1@
            == masked_payload@,
{
}

/// On a Subscriber's key ring, no key is found but its own, and each under its own
/// identifier only.
pub proof fn law_key_ring_holds_own_keys_only<
    Prng,
    Store: LinkStore,
    LinkGen: ChannelLinkGenerator,
>(ring: KeyRing<Prng, Store, LinkGen>, id: Seq<u8>, psk: Psk, ntru_sk: NtruPrivateKey)
    ensures
        ring.owner().psk_for(id) == Some(&psk) <==> (ring.owner().opt_psk matches Some(own)
            && own.0@ == id && own.1 == psk),
        ring.owner().ntru_sk_for(id) == Some(&ntru_sk) <==> (ring.owner().opt_ntru matches Some(own)
            && own.1.pkid@ == id && own.0 == ntru_sk),
{
}

/// Sending leaves the channel and the Author's keys as they are; unsubscribing
/// does not unbind the Subscriber either.
pub proof fn law_sending_keeps_channel<Prng, Store: LinkStore, LinkGen: ChannelLinkGenerator>(
    pre: SubscriberState<Prng, Store, LinkGen>,
    post: SubscriberState<Prng, Store, LinkGen>,
)
    requires
        SubscriberState::preparing_step(pre, post) || SubscriberState::sending_step(pre, post),
    ensures
        post.appinst == pre.appinst,
        post.author_mss_pk == pre.author_mss_pk,
        post.author_ntru_pk == pre.author_ntru_pk,
{
}

/// Receiving leaves the link generator as it is.
pub proof fn law_receiving_keeps_link_generator<
    Prng,
    Store: LinkStore,
    LinkGen: ChannelLinkGenerator,
>(pre: SubscriberState<Prng, Store, LinkGen>, post: SubscriberState<Prng, Store, LinkGen>)
    requires
        SubscriberState::receiving_step(pre, post),
    ensures
        post.link_gen == pre.link_gen,
{
}

/// A Subscriber that is not registered accepts any announcement and refuses
/// every other message; it cannot subscribe either.
pub proof fn law_unregistered_accepts_announcements_only<
    Prng,
    Store: LinkStore,
    LinkGen: ChannelLinkGenerator,
>(subscriber: SubscriberState<Prng, Store, LinkGen>, link: Link)
    requires
        subscriber.well_formed(),
        subscriber.appinst is None,
    ensures
        subscriber.announcement_refusal(link) is None,
        subscriber.instance_refusal(link) == Some(Refusal::NotSubscribed),
        subscriber.signed_packet_refusal(link) == Some(Refusal::NotSubscribed),
        subscriber.change_key_refusal(link) == Some(Refusal::NoAuthorMssPublicKey),
        subscriber.handle_signed_packet_refusal(link) == Some(Refusal::NoAuthorMssPublicKey),
        subscriber.subscribe_refusal() == Some(Refusal::NoAuthorNtruPublicKey),
{
}

/// A registered Subscriber accepts no announcement but the one that it is
/// registered to, and of the other messages exactly those of its channel instance.
pub proof fn law_registered_accepts_its_channel_only<
    Prng,
    Store: LinkStore,
    LinkGen: ChannelLinkGenerator,
>(subscriber: SubscriberState<Prng, Store, LinkGen>, appinst: Link, link: Link)
    requires
        subscriber.well_formed(),
        subscriber.appinst == Some(appinst),
    ensures
        subscriber.announcement_refusal(link) is None <==> link@ == appinst@,
        link@ != appinst@ ==> subscriber.announcement_refusal(link) == Some(
            Refusal::AlreadyRegistered { announced: link.base@, registered: appinst.base@ },
        ),
        link.base@ == appinst.base@ ==> subscriber.instance_refusal(link) is None
            && subscriber.change_key_refusal(link) is None && subscriber.signed_packet_refusal(
            link,
        ) is None && subscriber.handle_signed_packet_refusal(link) is None,
        link.base@ != appinst.base@ ==> subscriber.instance_refusal(link) == Some(
            Refusal::BadInstance,
        ) && subscriber.change_key_refusal(link) == Some(Refusal::BadInstance)
            && subscriber.signed_packet_refusal(link) == Some(Refusal::BadInstance)
            && subscriber.handle_signed_packet_refusal(link) == Some(Refusal::BadInstance),
{
}

/// An announcement that was handled opens the channel: right after it exactly the
/// messages of the announced instance are accepted, changes of key and signed
/// packets among them.
pub proof fn law_announcement_opens_channel<
    Prng,
    Store: LinkStore,
    LinkGen: ChannelLinkGenerator,
>(
    pre: SubscriberState<Prng, Store, LinkGen>,
    announced: Link,
    opened: Opened<Store::State, announce::ContentUnwrap>,
    info: Store::Info,
    post: SubscriberState<Prng, Store, LinkGen>,
    link: Link,
)
    requires
        SubscriberState::announcement_handled(pre, announced, Ok(opened), info, post, Ok(())),
    ensures
        post.well_formed(),
        post.instance_refusal(link) is None <==> link.base@ == announced.base@,
        post.change_key_refusal(link) is None <==> link.base@ == announced.base@,
        post.signed_packet_refusal(link) is None <==> link.base@ == announced.base@,
        post.handle_signed_packet_refusal(link) is None <==> link.base@ == announced.base@,
        post.announcement_refusal(link) is None <==> link@ == announced@,
{
}

/// After an announcement with an NTRU public key, a Subscriber with a key pair of
/// its own can subscribe, and subscribes under that key; after an announcement
/// without one, no subscription can be prepared.
pub proof fn law_subscription_is_for_the_announced_author<
    Prng,
    Store: LinkStore,
    LinkGen: ChannelLinkGenerator,
>(
    pre: SubscriberState<Prng, Store, LinkGen>,
    announced: Link,
    opened: Opened<Store::State, announce::ContentUnwrap>,
    info: Store::Info,
    post: SubscriberState<Prng, Store, LinkGen>,
)
    requires
        SubscriberState::announcement_handled(pre, announced, Ok(opened), info, post, Ok(())),
    ensures
        opened.content.ntru_pk is None ==> post.subscribe_refusal() == Some(
            Refusal::NoAuthorNtruPublicKey,
        ),
        opened.content.ntru_pk is Some && pre.opt_ntru is None ==> post.subscribe_refusal()
            == Some(Refusal::NoOwnNtruKeyPair),
        opened.content.ntru_pk is Some && pre.opt_ntru is Some ==> post.subscribe_refusal() is None,
        forall|
            link_to: Tbits,
            last: SubscriberState<Prng, Store, LinkGen>,
            message: PreparedMessage<Store, subscribe::ContentWrap<Prng>>,
        | #[trigger]
            SubscriberState::subscribe_prepared(post, link_to, last, message)
                ==> Some(*message.content.author_ntru_pk) == opened.content.ntru_pk
                && *message.content.subscriber_ntru_pk == pre.opt_ntru->Some_0.1,
{
}

/// Once a change of key was handled, a signed packet that the store takes is
/// accepted if and only if it is signed with the new key.
pub proof fn law_changed_key_decides_signatures<
    Prng,
    Store: LinkStore,
    LinkGen: ChannelLinkGenerator,
>(
    pre: SubscriberState<Prng, Store, LinkGen>,
    changed_at: Link,
    changed: Opened<Store::State, change_key::ContentUnwrap>,
    info: Store::Info,
    post: SubscriberState<Prng, Store, LinkGen>,
    packet_at: Link,
    packet: Opened<Store::State, signed_packet::ContentUnwrap>,
    packet_info: Store::Info,
    last: SubscriberState<Prng, Store, LinkGen>,
    result: Result<(Trytes, Trytes), SubscriberError<Store::Error>>,
)
    requires
        SubscriberState::change_key_handled(pre, changed_at, Ok(changed), info, post, Ok(())),
        SubscriberState::signed_packet_handled(post, packet_at, Ok(packet), packet_info, last, result),
        crate::error::store_outcome(result) is Ok,
    ensures
        result is Ok <==> packet.content.mss_pk@ == changed.content.mss_pk@,
        result is Err ==> crate::error::refused(result, Refusal::BadSignature),
{
}

/// The same holds of the key that was announced.
pub proof fn law_announced_key_decides_signatures<
    Prng,
    Store: LinkStore,
    LinkGen: ChannelLinkGenerator,
>(
    pre: SubscriberState<Prng, Store, LinkGen>,
    announced_at: Link,
    announced: Opened<Store::State, announce::ContentUnwrap>,
    info: Store::Info,
    post: SubscriberState<Prng, Store, LinkGen>,
    packet_at: Link,
    packet: Opened<Store::State, signed_packet::ContentUnwrap>,
    packet_info: Store::Info,
    last: SubscriberState<Prng, Store, LinkGen>,
    result: Result<(Trytes, Trytes), SubscriberError<Store::Error>>,
)
    requires
        SubscriberState::announcement_handled(pre, announced_at, Ok(announced), info, post, Ok(())),
        SubscriberState::signed_packet_handled(post, packet_at, Ok(packet), packet_info, last, result),
        crate::error::store_outcome(result) is Ok,
    ensures
        result is Ok <==> packet.content.mss_pk@ == announced.content.mss_pk@,
        result is Err ==> crate::error::refused(result, Refusal::BadSignature),
{
}

/// A signed packet whose signature is not accepted is in the store all the same.
pub proof fn law_badly_signed_packet_is_recorded<
    Prng,
    Store: LinkStore,
    LinkGen: ChannelLinkGenerator,
>(
    pre: SubscriberState<Prng, Store, LinkGen>,
    packet_at: Link,
    packet: Opened<Store::State, signed_packet::ContentUnwrap>,
    info: Store::Info,
    post: SubscriberState<Prng, Store, LinkGen>,
    result: Result<(Trytes, Trytes), SubscriberError<Store::Error>>,
)
    requires
        SubscriberState::signed_packet_handled(pre, packet_at, Ok(packet), info, post, result),
        crate::error::refused(result, Refusal::BadSignature),
    ensures
        pre.store.entries() matches Some(entries) ==> post.store.entries() == Some(
            entries.insert(packet_at.rel@, (packet.spongos, info)),
        ),
{
}

/// A message that was recorded is found in the store under its relative link,
/// with its state and info, and every other message is found as before.
pub proof fn law_recorded_message_is_found<Store: LinkStore>(
    pre: Store,
    rel: Seq<u8>,
    state: Store::State,
    info: Store::Info,
    post: Store,
    other: Seq<u8>,
)
    requires
        pre.entries() is Some,
        crate::link::recorded(pre, rel, state, info, post, Ok(())),
    ensures
        post.entries() is Some,
        post.entries()->Some_0.contains_pair(rel, (state, info)),
        other != rel ==> (post.entries()->Some_0.dom().contains(other)
            <==> pre.entries()->Some_0.dom().contains(other)),
        other != rel && pre.entries()->Some_0.dom().contains(other)
            ==> post.entries()->Some_0[other] == pre.entries()->Some_0[other],
{
}

} // verus!
