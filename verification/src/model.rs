//! What the Subscriber decides and how it changes, over its fields: the terms in
//! which its operations are specified.
use vstd::prelude::*;
use crate::draws::Draws;
use crate::error::{Refusal, SubscriberError};
use crate::key_ring::KeyRing;
use crate::keys::{MssPublicKey, NtruPrivateKey, NtruPublicKey, Psk};
use crate::link::{ChannelLinkGenerator, ContentType, Header, Link, LinkStore};
use crate::message::{
    announce, change_key, keyload, signed_packet, subscribe, tagged_packet, unsubscribe, Opened,
    PreparedMessage, PreparsedMessage, Sealed, TbinaryMessage,
};
use crate::state::SubscriberState;
use crate::tbits::{NTrytes, Tbits, Trytes};

verus! {

impl<Prng, Store, LinkGen> SubscriberState<Prng, Store, LinkGen> where
    Store: LinkStore,
    LinkGen: ChannelLinkGenerator,
 {
    /// The channel and the Author's signing key are known together, and the
    /// Author's NTRU key only with them.
    pub open spec fn well_formed(self) -> bool {
        &&& self.appinst is Some <==> self.author_mss_pk is Some
        &&& self.author_ntru_pk is Some ==> self.appinst is Some
    }

    /// A Subscriber without a channel.
    pub open spec fn unbound(
        store: Store,
        link_gen: LinkGen,
        prng: Prng,
        opt_ntru: Option<(NtruPrivateKey, NtruPublicKey)>,
    ) -> Self {
        SubscriberState {
            prng,
            opt_psk: None,
            opt_ntru,
            appinst: None,
            author_mss_pk: None,
            author_ntru_pk: None,
            store,
            link_gen,
        }
    }

    /// The announcement that the Subscriber is registered to.
    pub open spec fn channel(self) -> Option<(Seq<u8>, Seq<u8>)> {
        match self.appinst {
            Some(appinst) => Some(appinst@),
            None => None,
        }
    }

    /// The Author's keys: the signing key and the NTRU public key.
    pub open spec fn author_keys(self) -> (Option<Seq<u8>>, Option<(Seq<u8>, Seq<u8>)>) {
        (
            match self.author_mss_pk {
                Some(mss_pk) => Some(mss_pk@),
                None => None,
            },
            crate::keys::ntru_pk_view(self.author_ntru_pk),
        )
    }

    /// The pre-shared key that an identifier stands for: the Subscriber's own.
    pub open spec fn psk_for(&self, pskid: Seq<u8>) -> Option<&Psk> {
        match &self.opt_psk {
            Some((own_pskid, own_psk)) => if own_pskid@ == pskid {
                Some(own_psk)
            } else {
                None
            },
            None => None,
        }
    }

    /// The NTRU private key that an identifier stands for: the Subscriber's own.
    pub open spec fn ntru_sk_for(&self, ntru_pkid: Seq<u8>) -> Option<&NtruPrivateKey> {
        match &self.opt_ntru {
            Some((own_ntru_sk, own_ntru_pk)) => if own_ntru_pk.pkid@ == ntru_pkid {
                Some(own_ntru_sk)
            } else {
                None
            },
            None => None,
        }
    }

    /// Why a message at `link` does not belong to the Subscriber's channel.
    pub open spec fn instance_refusal(self, link: Link) -> Option<Refusal> {
        match self.appinst {
            None => Some(Refusal::NotSubscribed),
            Some(appinst) => if appinst.base@ == link.base@ {
                None
            } else {
                Some(Refusal::BadInstance)
            },
        }
    }

    /// Why an announcement at `link` is refused: the Subscriber is registered
    /// already, and to another announcement.
    pub open spec fn announcement_refusal(self, link: Link) -> Option<Refusal> {
        match self.appinst {
            Some(appinst) if appinst@ != link@ => Some(
                Refusal::AlreadyRegistered { announced: link.base@, registered: appinst.base@ },
            ),
            _ => None,
        }
    }

    /// Why a change of key at `link` is refused.
    pub open spec fn change_key_refusal(self, link: Link) -> Option<Refusal> {
        if self.author_mss_pk is None {
            Some(Refusal::NoAuthorMssPublicKey)
        } else {
            self.instance_refusal(link)
        }
    }

    /// Why a signed packet at `link` is not handled.
    pub open spec fn handle_signed_packet_refusal(self, link: Link) -> Option<Refusal> {
        if self.author_mss_pk is None {
            Some(Refusal::NoAuthorMssPublicKey)
        } else {
            self.signed_packet_refusal(link)
        }
    }

    /// Why a signed packet at `link` is not unwrapped.
    pub open spec fn signed_packet_refusal(self, link: Link) -> Option<Refusal> {
        match self.instance_refusal(link) {
            Some(why) => Some(why),
            None => if self.author_mss_pk is None {
                Some(Refusal::CannotVerifySignature)
            } else {
                None
            },
        }
    }

    /// Why a subscription cannot be prepared.
    pub open spec fn subscribe_refusal(self) -> Option<Refusal> {
        if self.author_ntru_pk is None {
            Some(Refusal::NoAuthorNtruPublicKey)
        } else if self.opt_ntru is None {
            Some(Refusal::NoOwnNtruKeyPair)
        } else {
            None
        }
    }

    /// `pre` prepared a message: its link generator derived the header from
    /// `link_to`, nothing else changed, and the message refers to the store.
    pub open spec fn prepared<Content>(
        pre: Self,
        link_to: Tbits,
        content_type: ContentType,
        post: Self,
        message: PreparedMessage<Store, Content>,
    ) -> bool {
        &&& LinkGen::derived(pre.link_gen, link_to@, content_type, post.link_gen, message.header)
        &&& post == (SubscriberState { link_gen: post.link_gen, ..pre })
        &&& message.store == pre.store
    }

    /// `pre` prepared a keyload for the holder of the pre-shared key, if there
    /// is one, and for the Author, if the Author's NTRU public key is known.
    pub open spec fn keyload_prepared(
        pre: Self,
        link_to: Tbits,
        post: Self,
        message: PreparedMessage<Store, keyload::SubscriberContentWrap<Prng>>,
    ) -> bool {
        &&& Self::prepared(pre, link_to, ContentType::Keyload, post, message)
        &&& message.content == (keyload::ContentWrap {
            link: &link_to,
            nonce: message.content.nonce,
            key: message.content.key,
            psks: match pre.opt_psk {
                Some((pskid, psk)) => Some((&pskid, &psk)),
                None => None,
            },
            prng: &pre.prng,
            ntru_pks: match pre.author_ntru_pk {
                Some(ntru_pk) => Some(&ntru_pk),
                None => None,
            },
        })
    }

    /// `pre` prepared a tagged packet.
    pub open spec fn tagged_packet_prepared(
        pre: Self,
        link_to: Tbits,
        public_payload: Trytes,
        masked_payload: Trytes,
        post: Self,
        message: PreparedMessage<Store, tagged_packet::ContentWrap>,
    ) -> bool {
        &&& Self::prepared(pre, link_to, ContentType::TaggedPacket, post, message)
        &&& message.content == (tagged_packet::ContentWrap {
            link: &link_to,
            public_payload: &public_payload,
            masked_payload: &masked_payload,
        })
    }

    /// `pre` prepared a subscription with its own NTRU public key, for the Author's.
    pub open spec fn subscribe_prepared(
        pre: Self,
        link_to: Tbits,
        post: Self,
        message: PreparedMessage<Store, subscribe::ContentWrap<Prng>>,
    ) -> bool {
        &&& Self::prepared(pre, link_to, ContentType::Subscribe, post, message)
        &&& pre.opt_ntru matches Some((own_ntru_sk, own_ntru_pk))
        &&& pre.author_ntru_pk matches Some(author_ntru_pk)
        &&& message.content == (subscribe::ContentWrap {
            link: &link_to,
            nonce: message.content.nonce,
            unsubscribe_key: message.content.unsubscribe_key,
            subscriber_ntru_pk: &own_ntru_pk,
            author_ntru_pk: &author_ntru_pk,
            prng: &pre.prng,
        })
    }

    /// `pre` prepared an unsubscription.
    pub open spec fn unsubscribe_prepared(
        pre: Self,
        link_to: Tbits,
        post: Self,
        message: PreparedMessage<Store, unsubscribe::ContentWrap>,
    ) -> bool {
        &&& Self::prepared(pre, link_to, ContentType::Unsubscribe, post, message)
        &&& message.content == (unsubscribe::ContentWrap { link: &link_to })
    }

    /// What becomes of a message at `link` that the message layer wrapped, or
    /// failed to wrap: a wrapped one is recorded in the store and handed out.
    pub open spec fn sent(
        pre: Self,
        link: Link,
        outcome: Result<Sealed<Store::State>, Store::Error>,
        info: Store::Info,
        post: Self,
        result: Result<TbinaryMessage, SubscriberError<Store::Error>>,
    ) -> bool {
        match outcome {
            Err(failure) => result == Err::<TbinaryMessage, _>(SubscriberError::Failed(failure))
                && post == pre,
            Ok(sealed) => {
                &&& crate::link::recorded(
                    pre.store,
                    link.rel@,
                    sealed.spongos,
                    info,
                    post.store,
                    crate::error::store_outcome(result),
                )
                &&& post == (SubscriberState { store: post.store, ..pre })
                &&& match result {
                    Ok(message) => message == (TbinaryMessage { link, body: sealed.body }),
                    Err(error) => error is Failed,
                }
            },
        }
    }

    /// What becomes of an announcement at `link` that was not refused, for each
    /// answer of the message layer: once it is recorded in the store, the
    /// Subscriber is bound to the announced channel and knows the Author's keys.
    pub open spec fn announcement_handled(
        pre: Self,
        link: Link,
        outcome: Result<Opened<Store::State, announce::ContentUnwrap>, Store::Error>,
        info: Store::Info,
        post: Self,
        result: Result<(), SubscriberError<Store::Error>>,
    ) -> bool {
        match outcome {
            Err(failure) => result == Err::<(), _>(SubscriberError::Failed(failure)) && post
                == pre,
            Ok(opened) => {
                &&& crate::link::recorded(
                    pre.store,
                    link.rel@,
                    opened.spongos,
                    info,
                    post.store,
                    crate::error::store_outcome(result),
                )
                &&& match result {
                    Ok(_) => {
                        &&& post.channel() == Some(link@)
                        &&& post == (SubscriberState {
                            store: post.store,
                            appinst: post.appinst,
                            author_mss_pk: Some(opened.content.mss_pk),
                            author_ntru_pk: opened.content.ntru_pk,
                            ..pre
                        })
                    },
                    Err(error) => error is Failed && post == (SubscriberState {
                        store: post.store,
                        ..pre
                    }),
                }
            },
        }
    }

    /// What becomes of a change of key at `link` that was not refused, for each
    /// answer of the message layer: once it is recorded in the store, the new key
    /// is the Author's.
    pub open spec fn change_key_handled(
        pre: Self,
        link: Link,
        outcome: Result<Opened<Store::State, change_key::ContentUnwrap>, Store::Error>,
        info: Store::Info,
        post: Self,
        result: Result<(), SubscriberError<Store::Error>>,
    ) -> bool {
        match outcome {
            Err(failure) => result == Err::<(), _>(SubscriberError::Failed(failure)) && post
                == pre,
            Ok(opened) => {
                &&& crate::link::recorded(
                    pre.store,
                    link.rel@,
                    opened.spongos,
                    info,
                    post.store,
                    crate::error::store_outcome(result),
                )
                &&& match result {
                    Ok(_) => post == (SubscriberState {
                        store: post.store,
                        author_mss_pk: Some(opened.content.mss_pk),
                        ..pre
                    }),
                    Err(error) => error is Failed && post == (SubscriberState {
                        store: post.store,
                        ..pre
                    }),
                }
            },
        }
    }

    /// What becomes of a keyload at `link` that was not refused, for each answer
    /// of the message layer: it is recorded in the store, which is all that a
    /// later message linked to it needs.
    pub open spec fn keyload_handled(
        pre: Self,
        link: Link,
        outcome: Result<Opened<Store::State, keyload::ContentUnwrap>, Store::Error>,
        info: Store::Info,
        post: Self,
        result: Result<(), SubscriberError<Store::Error>>,
    ) -> bool {
        match outcome {
            Err(failure) => result == Err::<(), _>(SubscriberError::Failed(failure)) && post
                == pre,
            Ok(opened) => {
                &&& crate::link::recorded(
                    pre.store,
                    link.rel@,
                    opened.spongos,
                    info,
                    post.store,
                    crate::error::store_outcome(result),
                )
                &&& post == (SubscriberState { store: post.store, ..pre })
                &&& result matches Err(error) ==> error is Failed
            },
        }
    }

    /// What becomes of a signed packet at `link` that was not refused, for each
    /// answer of the message layer: it is recorded in the store, and its payloads
    /// are handed out if the signature was made with the Author's key.
    pub open spec fn signed_packet_handled(
        pre: Self,
        link: Link,
        outcome: Result<Opened<Store::State, signed_packet::ContentUnwrap>, Store::Error>,
        info: Store::Info,
        post: Self,
        result: Result<(Trytes, Trytes), SubscriberError<Store::Error>>,
    ) -> bool {
        match outcome {
            Err(failure) => result == Err::<(Trytes, Trytes), _>(SubscriberError::Failed(failure)) && post
                == pre,
            Ok(opened) => {
                let by_author = pre.author_mss_pk matches Some(mss_pk) && mss_pk@
                    == opened.content.mss_pk@;
                &&& crate::link::recorded(
                    pre.store,
                    link.rel@,
                    opened.spongos,
                    info,
                    post.store,
                    crate::error::store_outcome(result),
                )
                &&& post == (SubscriberState { store: post.store, ..pre })
                &&& match result {
                    Ok(payloads) => by_author && payloads == (
                        opened.content.public_payload,
                        opened.content.masked_payload,
                    ),
                    Err(SubscriberError::Failed(_)) => true,
                    Err(error) => !by_author && error is BadSignature,
                }
            },
        }
    }

    /// What becomes of a tagged packet at `link` that was not refused, for each
    /// answer of the message layer: it is recorded in the store, and its payloads
    /// are handed out.
    pub open spec fn tagged_packet_handled(
        pre: Self,
        link: Link,
        outcome: Result<Opened<Store::State, tagged_packet::ContentUnwrap>, Store::Error>,
        info: Store::Info,
        post: Self,
        result: Result<(Trytes, Trytes), SubscriberError<Store::Error>>,
    ) -> bool {
        match outcome {
            Err(failure) => result == Err::<(Trytes, Trytes), _>(SubscriberError::Failed(failure)) && post
                == pre,
            Ok(opened) => {
                &&& crate::link::recorded(
                    pre.store,
                    link.rel@,
                    opened.spongos,
                    info,
                    post.store,
                    crate::error::store_outcome(result),
                )
                &&& post == (SubscriberState { store: post.store, ..pre })
                &&& match result {
                    Ok(payloads) => payloads == (
                        opened.content.public_payload,
                        opened.content.masked_payload,
                    ),
                    Err(error) => error is Failed,
                }
            },
        }
    }

    /// `pre` prepared a keyload with values from `draws`, had it wrapped by `wrap`
    /// and sent it.
    pub open spec fn keyload_shared<RandomNonce, RandomKey, Wrap>(
        pre: Self,
        link_to: Tbits,
        draws: Draws<RandomNonce, RandomKey>,
        info: Store::Info,
        wrap: Wrap,
        post: Self,
        result: Result<TbinaryMessage, SubscriberError<Store::Error>>,
    ) -> bool where
        RandomNonce: FnOnce(usize) -> NTrytes,
        RandomKey: FnOnce(usize) -> NTrytes,
        Wrap: for <'c, 'd>FnOnce(
            &'d PreparedMessage<'c, Store, keyload::SubscriberContentWrap<'c, Prng>>,
        ) -> Result<Sealed<Store::State>, Store::Error>,
    {
        exists|
            mid: Self,
            message: PreparedMessage<Store, keyload::SubscriberContentWrap<Prng>>,
            outcome: Result<Sealed<Store::State>, Store::Error>,
        |
            #[trigger] Self::keyload_prepared(pre, link_to, mid, message) && draws.drawn(
                message.content.nonce,
                message.content.key,
            ) && #[trigger] call_ensures(wrap, (&message,), outcome) && Self::sent(
                mid,
                message.header.link,
                outcome,
                info,
                post,
                result,
            )
    }

    /// `pre` prepared a tagged packet, had it wrapped by `wrap` and sent it.
    pub open spec fn packet_tagged<Wrap>(
        pre: Self,
        link_to: Tbits,
        public_payload: Trytes,
        masked_payload: Trytes,
        info: Store::Info,
        wrap: Wrap,
        post: Self,
        result: Result<TbinaryMessage, SubscriberError<Store::Error>>,
    ) -> bool where
        Wrap: for <'c, 'd>FnOnce(
            &'d PreparedMessage<'c, Store, tagged_packet::ContentWrap<'c>>,
        ) -> Result<Sealed<Store::State>, Store::Error>,
    {
        exists|
            mid: Self,
            message: PreparedMessage<Store, tagged_packet::ContentWrap>,
            outcome: Result<Sealed<Store::State>, Store::Error>,
        |
            #[trigger] Self::tagged_packet_prepared(
                pre,
                link_to,
                public_payload,
                masked_payload,
                mid,
                message,
            )
                && #[trigger] call_ensures(wrap, (&message,), outcome) && Self::sent(
                mid,
                message.header.link,
                outcome,
                info,
                post,
                result,
            )
    }

    /// `pre` was not able to subscribe, or prepared a subscription with values
    /// from `draws`, had it wrapped by `wrap` and sent it.
    pub open spec fn subscribed<RandomNonce, RandomKey, Wrap>(
        pre: Self,
        link_to: Tbits,
        draws: Draws<RandomNonce, RandomKey>,
        info: Store::Info,
        wrap: Wrap,
        post: Self,
        result: Result<TbinaryMessage, SubscriberError<Store::Error>>,
    ) -> bool where
        RandomNonce: FnOnce(usize) -> NTrytes,
        RandomKey: FnOnce(usize) -> NTrytes,
        Wrap: for <'c, 'd>FnOnce(
            &'d PreparedMessage<'c, Store, subscribe::ContentWrap<'c, Prng>>,
        ) -> Result<Sealed<Store::State>, Store::Error>,
    {
        match pre.subscribe_refusal() {
            Some(why) => crate::error::refused(result, why) && post == pre,
            None => exists|
                mid: Self,
                message: PreparedMessage<Store, subscribe::ContentWrap<Prng>>,
                outcome: Result<Sealed<Store::State>, Store::Error>,
            |
                #[trigger] Self::subscribe_prepared(pre, link_to, mid, message) && draws.drawn(
                    message.content.nonce,
                    message.content.unsubscribe_key,
                ) && #[trigger] call_ensures(wrap, (&message,), outcome) && Self::sent(
                    mid,
                    message.header.link,
                    outcome,
                    info,
                    post,
                    result,
                ),
        }
    }

    /// `pre` prepared an unsubscription, had it wrapped by `wrap` and sent it.
    pub open spec fn unsubscribed<Wrap>(
        pre: Self,
        link_to: Tbits,
        info: Store::Info,
        wrap: Wrap,
        post: Self,
        result: Result<TbinaryMessage, SubscriberError<Store::Error>>,
    ) -> bool where
        Wrap: for <'c, 'd>FnOnce(
            &'d PreparedMessage<'c, Store, unsubscribe::ContentWrap<'c>>,
        ) -> Result<Sealed<Store::State>, Store::Error>,
    {
        exists|
            mid: Self,
            message: PreparedMessage<Store, unsubscribe::ContentWrap>,
            outcome: Result<Sealed<Store::State>, Store::Error>,
        |
            #[trigger] Self::unsubscribe_prepared(pre, link_to, mid, message)
                && #[trigger] call_ensures(wrap, (&message,), outcome) && Self::sent(
                mid,
                message.header.link,
                outcome,
                info,
                post,
                result,
            )
    }

    /// `pre` refused an announcement or, without refusing it, had it unwrapped
    /// by `unwrap` and handled it.
    pub open spec fn announcement_received<Ctx, Unwrap>(
        pre: Self,
        preparsed: PreparsedMessage<Ctx>,
        info: Store::Info,
        unwrap: Unwrap,
        post: Self,
        result: Result<(), SubscriberError<Store::Error>>,
    ) -> bool where
        Unwrap: FnOnce(&Header, Ctx, &Store) -> Result<
            Opened<Store::State, announce::ContentUnwrap>,
            Store::Error,
        >,
    {
        match pre.announcement_refusal(preparsed.header.link) {
            Some(why) => crate::error::refused(result, why) && post == pre,
            None => exists|
                outcome: Result<Opened<Store::State, announce::ContentUnwrap>, Store::Error>,
            |
                #[trigger] call_ensures(
                    unwrap,
                    (&preparsed.header, preparsed.ctx, &pre.store),
                    outcome,
                ) && Self::announcement_handled(
                    pre,
                    preparsed.header.link,
                    outcome,
                    info,
                    post,
                    result,
                ),
        }
    }

    /// `pre` refused a change of key or, without refusing it, had it unwrapped
    /// by `unwrap` and handled it.
    pub open spec fn change_key_received<Ctx, Unwrap>(
        pre: Self,
        preparsed: PreparsedMessage<Ctx>,
        info: Store::Info,
        unwrap: Unwrap,
        post: Self,
        result: Result<(), SubscriberError<Store::Error>>,
    ) -> bool where
        Unwrap: FnOnce(&Header, Ctx, &Store, &MssPublicKey) -> Result<
            Opened<Store::State, change_key::ContentUnwrap>,
            Store::Error,
        >,
    {
        match pre.change_key_refusal(preparsed.header.link) {
            Some(why) => crate::error::refused(result, why) && post == pre,
            None => exists|
                outcome: Result<Opened<Store::State, change_key::ContentUnwrap>, Store::Error>,
            |
                #[trigger] call_ensures(
                    unwrap,
                    (&preparsed.header, preparsed.ctx, &pre.store, &pre.author_mss_pk->Some_0),
                    outcome,
                ) && Self::change_key_handled(
                    pre,
                    preparsed.header.link,
                    outcome,
                    info,
                    post,
                    result,
                ),
        }
    }

    /// `pre` refused a keyload or, without refusing it, had it unwrapped
    /// by `unwrap` and handled it.
    pub open spec fn keyload_received<Ctx, Unwrap>(
        pre: Self,
        preparsed: PreparsedMessage<Ctx>,
        info: Store::Info,
        unwrap: Unwrap,
        post: Self,
        result: Result<(), SubscriberError<Store::Error>>,
    ) -> bool where
        Unwrap: FnOnce(&Header, Ctx, &Store, KeyRing<Prng, Store, LinkGen>) -> Result<
            Opened<Store::State, keyload::ContentUnwrap>,
            Store::Error,
        >,
    {
        match pre.instance_refusal(preparsed.header.link) {
            Some(why) => crate::error::refused(result, why) && post == pre,
            None => exists|
                ring: KeyRing<Prng, Store, LinkGen>,
                outcome: Result<Opened<Store::State, keyload::ContentUnwrap>, Store::Error>,
            |
                ring.owner() == pre && #[trigger] call_ensures(
                    unwrap,
                    (&preparsed.header, preparsed.ctx, &pre.store, ring),
                    outcome,
                ) && Self::keyload_handled(
                    pre,
                    preparsed.header.link,
                    outcome,
                    info,
                    post,
                    result,
                ),
        }
    }

    /// `pre` refused a signed packet or, without refusing it, had it unwrapped
    /// by `unwrap` and handled it.
    pub open spec fn signed_packet_received<Ctx, Unwrap>(
        pre: Self,
        preparsed: PreparsedMessage<Ctx>,
        info: Store::Info,
        unwrap: Unwrap,
        post: Self,
        result: Result<(Trytes, Trytes), SubscriberError<Store::Error>>,
    ) -> bool where
        Unwrap: FnOnce(&Header, Ctx, &Store) -> Result<
            Opened<Store::State, signed_packet::ContentUnwrap>,
            Store::Error,
        >,
    {
        match pre.handle_signed_packet_refusal(preparsed.header.link) {
            Some(why) => crate::error::refused(result, why) && post == pre,
            None => exists|
                outcome: Result<Opened<Store::State, signed_packet::ContentUnwrap>, Store::Error>,
            |
                #[trigger] call_ensures(
                    unwrap,
                    (&preparsed.header, preparsed.ctx, &pre.store),
                    outcome,
                ) && Self::signed_packet_handled(
                    pre,
                    preparsed.header.link,
                    outcome,
                    info,
                    post,
                    result,
                ),
        }
    }

    /// `pre` refused a tagged packet or, without refusing it, had it unwrapped
    /// by `unwrap` and handled it.
    pub open spec fn tagged_packet_received<Ctx, Unwrap>(
        pre: Self,
        preparsed: PreparsedMessage<Ctx>,
        info: Store::Info,
        unwrap: Unwrap,
        post: Self,
        result: Result<(Trytes, Trytes), SubscriberError<Store::Error>>,
    ) -> bool where
        Unwrap: FnOnce(&Header, Ctx, &Store) -> Result<
            Opened<Store::State, tagged_packet::ContentUnwrap>,
            Store::Error,
        >,
    {
        match pre.instance_refusal(preparsed.header.link) {
            Some(why) => crate::error::refused(result, why) && post == pre,
            None => exists|
                outcome: Result<Opened<Store::State, tagged_packet::ContentUnwrap>, Store::Error>,
            |
                #[trigger] call_ensures(
                    unwrap,
                    (&preparsed.header, preparsed.ctx, &pre.store),
                    outcome,
                ) && Self::tagged_packet_handled(
                    pre,
                    preparsed.header.link,
                    outcome,
                    info,
                    post,
                    result,
                ),
        }
    }
}

} // verus!
