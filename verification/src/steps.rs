//! Steps of the Subscriber, one or two to each operation, and what is reached by them.
use vstd::prelude::*;
use crate::error::SubscriberError;
use crate::link::{ChannelLinkGenerator, Link, LinkStore};
use crate::message::{
    announce, change_key, keyload, signed_packet, subscribe, tagged_packet, unsubscribe, Opened,
    PreparedMessage, Sealed, TbinaryMessage,
};
use crate::state::SubscriberState;
use crate::tbits::{Tbits, Trytes};

verus! {

impl<Prng, Store, LinkGen> SubscriberState<Prng, Store, LinkGen> where
    Store: LinkStore,
    LinkGen: ChannelLinkGenerator,
 {
    /// `pre` handled an announcement that it did not refuse and became `post`.
    pub open spec fn announcement_step(pre: Self, post: Self) -> bool {
        exists|
            link: Link,
            outcome: Result<Opened<Store::State, announce::ContentUnwrap>, Store::Error>,
            info: Store::Info,
            result: Result<(), SubscriberError<Store::Error>>,
        |
            pre.announcement_refusal(link) is None && #[trigger] Self::announcement_handled(
                pre,
                link,
                outcome,
                info,
                post,
                result,
            )
    }

    /// `pre` handled a change of key that it did not refuse and became `post`.
    pub open spec fn change_key_step(pre: Self, post: Self) -> bool {
        exists|
            link: Link,
            outcome: Result<Opened<Store::State, change_key::ContentUnwrap>, Store::Error>,
            info: Store::Info,
            result: Result<(), SubscriberError<Store::Error>>,
        |
            pre.change_key_refusal(link) is None && #[trigger] Self::change_key_handled(
                pre,
                link,
                outcome,
                info,
                post,
                result,
            )
    }

    /// `pre` handled a keyload that it did not refuse and became `post`.
    pub open spec fn keyload_step(pre: Self, post: Self) -> bool {
        exists|
            link: Link,
            outcome: Result<Opened<Store::State, keyload::ContentUnwrap>, Store::Error>,
            info: Store::Info,
            result: Result<(), SubscriberError<Store::Error>>,
        |
            pre.instance_refusal(link) is None && #[trigger] Self::keyload_handled(
                pre,
                link,
                outcome,
                info,
                post,
                result,
            )
    }

    /// `pre` handled a signed packet that it did not refuse and became `post`.
    pub open spec fn signed_packet_step(pre: Self, post: Self) -> bool {
        exists|
            link: Link,
            outcome: Result<Opened<Store::State, signed_packet::ContentUnwrap>, Store::Error>,
            info: Store::Info,
            result: Result<(Trytes, Trytes), SubscriberError<Store::Error>>,
        |
            pre.signed_packet_refusal(link) is None && #[trigger] Self::signed_packet_handled(
                pre,
                link,
                outcome,
                info,
                post,
                result,
            )
    }

    /// `pre` handled a tagged packet that it did not refuse and became `post`.
    pub open spec fn tagged_packet_step(pre: Self, post: Self) -> bool {
        exists|
            link: Link,
            outcome: Result<Opened<Store::State, tagged_packet::ContentUnwrap>, Store::Error>,
            info: Store::Info,
            result: Result<(Trytes, Trytes), SubscriberError<Store::Error>>,
        |
            pre.instance_refusal(link) is None && #[trigger] Self::tagged_packet_handled(
                pre,
                link,
                outcome,
                info,
                post,
                result,
            )
    }

    /// `pre` received a message that it did not refuse and became `post`.
    pub open spec fn receiving_step(pre: Self, post: Self) -> bool {
        ||| Self::announcement_step(pre, post)
        ||| Self::change_key_step(pre, post)
        ||| Self::keyload_step(pre, post)
        ||| Self::signed_packet_step(pre, post)
        ||| Self::tagged_packet_step(pre, post)
    }

    /// `pre` prepared a keyload, a tagged packet, a subscription or an
    /// unsubscription and became `post`.
    pub open spec fn preparing_step(pre: Self, post: Self) -> bool {
        ||| exists|
            link_to: Tbits,
            message: PreparedMessage<Store, keyload::SubscriberContentWrap<Prng>>,
        | #[trigger]
            Self::keyload_prepared(pre, link_to, post, message)
        ||| exists|
            link_to: Tbits,
            public_payload: Trytes,
            masked_payload: Trytes,
            message: PreparedMessage<Store, tagged_packet::ContentWrap>,
        | #[trigger]
            Self::tagged_packet_prepared(
                pre,
                link_to,
                public_payload,
                masked_payload,
                post,
                message,
            )
        ||| exists|
            link_to: Tbits,
            message: PreparedMessage<Store, subscribe::ContentWrap<Prng>>,
        | #[trigger]
            Self::subscribe_prepared(pre, link_to, post, message)
        ||| exists|link_to: Tbits, message: PreparedMessage<Store, unsubscribe::ContentWrap>|
            #[trigger] Self::unsubscribe_prepared(pre, link_to, post, message)
    }

    /// `pre` recorded a message that was wrapped, or reported that it was not,
    /// and became `post`.
    pub open spec fn sending_step(pre: Self, post: Self) -> bool {
        exists|
            link: Link,
            outcome: Result<Sealed<Store::State>, Store::Error>,
            info: Store::Info,
            result: Result<TbinaryMessage, SubscriberError<Store::Error>>,
        | #[trigger]
            Self::sent(pre, link, outcome, info, post, result)
    }

    /// One step of the Subscriber. A refused operation leaves it as it was.
    pub open spec fn step(pre: Self, post: Self) -> bool {
        ||| post == pre
        ||| Self::receiving_step(pre, post)
        ||| Self::preparing_step(pre, post)
        ||| Self::sending_step(pre, post)
    }

    /// Two steps of the Subscriber, one after the other.
    pub open spec fn two_steps(pre: Self, post: Self) -> bool {
        exists|mid: Self| #[trigger] Self::step(pre, mid) && #[trigger] Self::step(mid, post)
    }

    /// A run of the Subscriber: each state follows from the one before by a step.
    pub open spec fn run(states: Seq<Self>) -> bool {
        &&& states.len() > 0
        &&& forall|i: int|
            0 <= i < states.len() - 1 ==> Self::step(#[trigger] states[i], states[i + 1])
    }

    /// Some run leads from `pre` to `post`.
    pub open spec fn reaches(pre: Self, post: Self) -> bool {
        exists|states: Seq<Self>| #[trigger]
            Self::run(states) && states.first() == pre && states.last() == post
    }
}

} // verus!
