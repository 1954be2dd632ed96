//! The Subscriber of a channel.
use vstd::prelude::*;
use crate::draws::Draws;
use crate::error::SubscriberError;
use crate::key_ring::KeyRing;
use crate::keys::{MssPublicKey, NtruPkid, NtruPrivateKey, NtruPublicKey, Psk, PskId};
use crate::link::{ChannelLinkGenerator, ContentType, Header, LinkStore};
use crate::message::{
    announce, change_key, keyload, signed_packet, subscribe, tagged_packet, unsubscribe, Opened,
    PreparedMessage, PreparsedMessage, Sealed, TbinaryMessage, UnwrappedMessage, WrappedMessage,
};
use crate::state::SubscriberState;
use crate::tbits::{NTrytes, Tbits, Trytes};

verus! {

/// Channel Subscriber, parametrised by the generator of pseudorandom numbers,
/// the link store and the link generator.
///
/// `Store` abstracts over link storages: a map from a relative link to the
/// sponge state, and associated info, of the message that the link refers to.
/// Messages are linked within one channel instance only, so that the relative
/// part of a link is all that the store needs.
///
/// `LinkGen` derives the links of new messages from a state of its own.
///
/// The sponge, the signatures and the key encapsulation belong to the message
/// layer. An operation that needs it takes it as a function, and states which
/// values it is given and what is done with its answer. The message layer answers
/// with bodies, contents and sponge states; the links are the Subscriber's to keep.
pub struct SubscriberT<Prng, Store, LinkGen> {
    state: SubscriberState<Prng, Store, LinkGen>,
}

impl<Prng, Store, LinkGen> View for SubscriberT<Prng, Store, LinkGen> {
    type V = SubscriberState<Prng, Store, LinkGen>;

    closed spec fn view(&self) -> SubscriberState<Prng, Store, LinkGen> {
        self.state
    }
}

impl<Prng, Store, LinkGen> SubscriberT<Prng, Store, LinkGen> where
    Store: LinkStore,
    LinkGen: ChannelLinkGenerator,
 {
    /// The Subscriber whose state was stored.
    pub fn from_state(state: SubscriberState<Prng, Store, LinkGen>) -> (subscriber: Self)
        ensures
            subscriber@ == state,
    {
        SubscriberT { state }
    }

    /// The state of the Subscriber, to be stored.
    pub fn into_state(self) -> (state: SubscriberState<Prng, Store, LinkGen>)
        ensures
            state == self@,
    {
        self.state
    }

    /// The state of the Subscriber, to be read.
    pub fn state(&self) -> (state: &SubscriberState<Prng, Store, LinkGen>)
        ensures
            *state == self@,
    {
        &self.state
    }

    /// A Subscriber without a channel, with the given NTRU key pair if there is one.
    pub fn with_key_pair(
        store: Store,
        link_gen: LinkGen,
        prng: Prng,
        opt_ntru: Option<(NtruPrivateKey, NtruPublicKey)>,
    ) -> (subscriber: Self)
        ensures
            subscriber@ == SubscriberState::unbound(store, link_gen, prng, opt_ntru),
            subscriber@.well_formed(),
    {
        SubscriberT {
            state: SubscriberState {
                prng,
                opt_psk: None,
                opt_ntru,
                appinst: None,
                author_mss_pk: None,
                author_ntru_pk: None,
                store,
                link_gen,
            },
        }
    }

    /// Creates a new Subscriber and optionally generates an NTRU key pair.
    ///
    /// `encode` gives the tbits of a text in trytes. `gen_keypair` generates a key
    /// pair from the PRNG and a nonce, which is the text `NTRUNONCE` followed by
    /// the given nonce. Neither is called without `with_ntru`.
    pub fn gen<Encode, GenKeypair>(
        store: Store,
        link_gen: LinkGen,
        prng: Prng,
        nonce: &Tbits,
        with_ntru: bool,
        encode: Encode,
        gen_keypair: GenKeypair,
    ) -> (subscriber: Self) where
        Encode: FnOnce(&str) -> Tbits,
        GenKeypair: FnOnce(&Prng, &Tbits) -> (NtruPrivateKey, NtruPublicKey),

        requires
            with_ntru ==> call_requires(encode, ("NTRUNONCE",)),
            with_ntru ==> forall|prefix: Tbits, ntru_nonce: Tbits| #[trigger]
                call_ensures(encode, ("NTRUNONCE",), prefix) && ntru_nonce@ == prefix@ + nonce@
                    ==> #[trigger] call_requires(gen_keypair, (&prng, &ntru_nonce)),
        ensures
            subscriber@.well_formed(),
            !with_ntru ==> subscriber@ == SubscriberState::unbound(store, link_gen, prng, None),
            with_ntru ==> exists|
                prefix: Tbits,
                ntru_nonce: Tbits,
                key_pair: (NtruPrivateKey, NtruPublicKey),
            |
                #[trigger] call_ensures(encode, ("NTRUNONCE",), prefix) && ntru_nonce@ == prefix@
                    + nonce@ && #[trigger] call_ensures(
                    gen_keypair,
                    (&prng, &ntru_nonce),
                    key_pair,
                ) && subscriber@ == SubscriberState::unbound(store, link_gen, prng, Some(key_pair)),
    {
        let opt_ntru = if with_ntru {
            let ntru_nonce = encode("NTRUNONCE").concat(nonce);
            let key_pair = gen_keypair(&prng, &ntru_nonce);
            Some(key_pair)
        } else {
            None
        };
        Self::with_key_pair(store, link_gen, prng, opt_ntru)
    }

    /// Checks that a message belongs to the Subscriber's channel instance.
    fn ensure_appinst<Ctx>(&self, preparsed: &PreparsedMessage<Ctx>) -> (result: Result<
        (),
        SubscriberError<Store::Error>,
    >)
        ensures
            match self@.instance_refusal(preparsed.header.link) {
                Some(why) => crate::error::refused(result, why),
                None => result is Ok,
            },
    {
        match &self.state.appinst {
            None => Err(SubscriberError::NotSubscribed),
            Some(appinst) => {
                if appinst.same_base(&preparsed.header.link) {
                    Ok(())
                } else {
                    Err(SubscriberError::BadInstance)
                }
            },
        }
    }

    /// Prepares a keyload for the given recipients, with a session key drawn for it.
    fn do_prepare_keyload<'a, Psks, NtruPks, RandomNonce, RandomKey>(
        &'a self,
        header: Header,
        link_to: &'a Tbits,
        psks: Psks,
        ntru_pks: NtruPks,
        draws: Draws<RandomNonce, RandomKey>,
    ) -> (result: Result<
        PreparedMessage<'a, Store, keyload::ContentWrap<'a, Prng, Psks, NtruPks>>,
        SubscriberError<Store::Error>,
    >) where
        RandomNonce: FnOnce(usize) -> NTrytes,
        RandomKey: FnOnce(usize) -> NTrytes,

        requires
            draws.ready(),
        ensures
            result matches Ok(message) && draws.drawn(message.content.nonce, message.content.key)
                && message == (PreparedMessage {
                store: &self@.store,
                header,
                content: keyload::ContentWrap {
                    link: link_to,
                    nonce: message.content.nonce,
                    key: message.content.key,
                    psks,
                    prng: &self@.prng,
                    ntru_pks,
                },
            }),
    {
        let (nonce, key) = draws.draw();
        let content = keyload::ContentWrap {
            link: link_to,
            nonce,
            key,
            psks,
            prng: &self.state.prng,
            ntru_pks,
        };
        Ok(PreparedMessage::new(&self.state.store, header, content))
    }

    /// Prepares a keyload message, linked to `link_to`, for those who hold the
    /// Subscriber's pre-shared key and for the Author. Its nonce and session key
    /// are drawn for it.
    pub fn prepare_keyload<'a, RandomNonce, RandomKey>(
        &'a mut self,
        link_to: &'a Tbits,
        draws: Draws<RandomNonce, RandomKey>,
    ) -> (result: Result<
        PreparedMessage<'a, Store, keyload::SubscriberContentWrap<'a, Prng>>,
        SubscriberError<Store::Error>,
    >) where
        RandomNonce: FnOnce(usize) -> NTrytes,
        RandomKey: FnOnce(usize) -> NTrytes,

        requires
            draws.ready(),
        ensures
            result matches Ok(message) && draws.drawn(message.content.nonce, message.content.key)
                && SubscriberState::keyload_prepared(old(self)@, *link_to, final(self)@, message),
            SubscriberState::step(old(self)@, final(self)@),
            old(self)@.well_formed() ==> final(self)@.well_formed(),
    {
        let header = self.state.link_gen.header_from(link_to, ContentType::Keyload);
        let psks = match &self.state.opt_psk {
            Some((pskid, psk)) => Some((pskid, psk)),
            None => None,
        };
        self.do_prepare_keyload(header, link_to, psks, self.state.author_ntru_pk.as_ref(), draws)
    }

    /// Records a wrapped message in the store and hands it out.
    pub fn commit_wrapped(
        &mut self,
        wrapped: WrappedMessage<Store::State>,
        info: Store::Info,
    ) -> (result: Result<TbinaryMessage, SubscriberError<Store::Error>>)
        ensures
            SubscriberState::sent(
                old(self)@,
                wrapped.message.link,
                Ok((Sealed { spongos: wrapped.spongos, body: wrapped.message.body })),
                info,
                final(self)@,
                result,
            ),
            SubscriberState::step(old(self)@, final(self)@),
            old(self)@.well_formed() ==> final(self)@.well_formed(),
    {
        let result = match wrapped.commit(&mut self.state.store, info) {
            Ok(message) => Ok(message),
            Err(failure) => Err(SubscriberError::Failed(failure)),
        };
        assert(SubscriberState::sent(
            old(self)@,
            wrapped.message.link,
            Ok((Sealed { spongos: wrapped.spongos, body: wrapped.message.body })),
            info,
            self@,
            result,
        ));
        result
    }

    /// Records and hands out a message that was wrapped, or reports why it was not.
    fn send_wrapped(
        &mut self,
        wrapped: Result<WrappedMessage<Store::State>, Store::Error>,
        info: Store::Info,
    ) -> (result: Result<TbinaryMessage, SubscriberError<Store::Error>>)
        ensures
            match wrapped {
                Ok(wrapped) => SubscriberState::sent(
                    old(self)@,
                    wrapped.message.link,
                    Ok((Sealed { spongos: wrapped.spongos, body: wrapped.message.body })),
                    info,
                    final(self)@,
                    result,
                ),
                Err(failure) => result == Err::<TbinaryMessage, _>(SubscriberError::Failed(failure))
                    && final(self)@ == old(self)@,
            },
            SubscriberState::step(old(self)@, final(self)@),
            old(self)@.well_formed() ==> final(self)@.well_formed(),
    {
        match wrapped {
            Ok(wrapped) => self.commit_wrapped(wrapped, info),
            Err(failure) => Err(SubscriberError::Failed(failure)),
        }
    }

    /// Creates a keyload message with a new session key, shared with those who
    /// hold the Subscriber's pre-shared key and with the Author.
    pub fn share_keyload<RandomNonce, RandomKey, Wrap>(
        &mut self,
        link_to: &Tbits,
        info: Store::Info,
        draws: Draws<RandomNonce, RandomKey>,
        wrap: Wrap,
    ) -> (result: Result<TbinaryMessage, SubscriberError<Store::Error>>) where
        RandomNonce: FnOnce(usize) -> NTrytes,
        RandomKey: FnOnce(usize) -> NTrytes,
        Wrap: for <'c, 'd>FnOnce(
            &'d PreparedMessage<'c, Store, keyload::SubscriberContentWrap<'c, Prng>>,
        ) -> Result<Sealed<Store::State>, Store::Error>,

        requires
            draws.ready(),
            forall|
                mid: SubscriberState<Prng, Store, LinkGen>,
                message: PreparedMessage<Store, keyload::SubscriberContentWrap<Prng>>,
            |
                #[trigger] SubscriberState::keyload_prepared(old(self)@, *link_to, mid, message)
                    && draws.drawn(
                    message.content.nonce,
                    message.content.key,
                ) ==> call_requires(wrap, (&message,)),
        ensures
            SubscriberState::keyload_shared(
                old(self)@,
                *link_to,
                draws,
                info,
                wrap,
                final(self)@,
                result,
            ),
            SubscriberState::two_steps(old(self)@, final(self)@),
            old(self)@.well_formed() ==> final(self)@.well_formed(),
    {
        let wrapped = match self.prepare_keyload(link_to, draws) {
            Ok(message) => {
                let outcome = wrap(&message);
                message.seal(outcome)
            },
            Err(error) => {
                return Err(error);
            },
        };
        self.send_wrapped(wrapped, info)
    }

    /// Prepares a tagged packet message.
    pub fn prepare_tagged_packet<'a>(
        &'a mut self,
        link_to: &'a Tbits,
        public_payload: &'a Trytes,
        masked_payload: &'a Trytes,
    ) -> (result: Result<
        PreparedMessage<'a, Store, tagged_packet::ContentWrap<'a>>,
        SubscriberError<Store::Error>,
    >)
        ensures
            result is Ok,
            SubscriberState::tagged_packet_prepared(
                old(self)@,
                *link_to,
                *public_payload,
                *masked_payload,
                final(self)@,
                result->Ok_0,
            ),
            SubscriberState::step(old(self)@, final(self)@),
            old(self)@.well_formed() ==> final(self)@.well_formed(),
    {
        let header = self.state.link_gen.header_from(link_to, ContentType::TaggedPacket);
        let content = tagged_packet::ContentWrap { link: link_to, public_payload, masked_payload };
        Ok(PreparedMessage::new(&self.state.store, header, content))
    }

    /// Creates a tagged (i.e. MACed) message with public and masked payload.
    /// Tagged messages must be linked to a secret sponge state, i.e. to a keyload
    /// or to a message linked to a keyload.
    pub fn tag_packet<Wrap>(
        &mut self,
        link_to: &Tbits,
        public_payload: &Trytes,
        masked_payload: &Trytes,
        info: Store::Info,
        wrap: Wrap,
    ) -> (result: Result<TbinaryMessage, SubscriberError<Store::Error>>) where
        Wrap: for <'c, 'd>FnOnce(
            &'d PreparedMessage<'c, Store, tagged_packet::ContentWrap<'c>>,
        ) -> Result<Sealed<Store::State>, Store::Error>,

        requires
            forall|
                mid: SubscriberState<Prng, Store, LinkGen>,
                message: PreparedMessage<Store, tagged_packet::ContentWrap>,
            |
                #[trigger] SubscriberState::tagged_packet_prepared(
                    old(self)@,
                    *link_to,
                    *public_payload,
                    *masked_payload,
                    mid,
                    message,
                ) ==> call_requires(wrap, (&message,)),
        ensures
            SubscriberState::packet_tagged(
                old(self)@,
                *link_to,
                *public_payload,
                *masked_payload,
                info,
                wrap,
                final(self)@,
                result,
            ),
            SubscriberState::two_steps(old(self)@, final(self)@),
            old(self)@.well_formed() ==> final(self)@.well_formed(),
    {
        let wrapped = match self.prepare_tagged_packet(link_to, public_payload, masked_payload) {
            Ok(message) => {
                let outcome = wrap(&message);
                message.seal(outcome)
            },
            Err(error) => {
                return Err(error);
            },
        };
        self.send_wrapped(wrapped, info)
    }

    /// Prepares a subscription message, linked to `link_to`. It takes the Author's
    /// NTRU public key and an NTRU key pair of the Subscriber's own; without them
    /// nothing is drawn and the link generator is left as it is. Its nonce and
    /// its key for unsubscribing are drawn for it.
    pub fn prepare_subscribe<'a, RandomNonce, RandomKey>(
        &'a mut self,
        link_to: &'a Tbits,
        draws: Draws<RandomNonce, RandomKey>,
    ) -> (result: Result<
        PreparedMessage<'a, Store, subscribe::ContentWrap<'a, Prng>>,
        SubscriberError<Store::Error>,
    >) where
        RandomNonce: FnOnce(usize) -> NTrytes,
        RandomKey: FnOnce(usize) -> NTrytes,

        requires
            old(self)@.subscribe_refusal() is None ==> draws.ready(),
        ensures
            match old(self)@.subscribe_refusal() {
                Some(why) => crate::error::refused(result, why) && final(self)@ == old(self)@,
                None => result matches Ok(message) && draws.drawn(
                    message.content.nonce,
                    message.content.unsubscribe_key,
                ) && SubscriberState::subscribe_prepared(old(self)@, *link_to, final(self)@, message),
            },
            SubscriberState::step(old(self)@, final(self)@),
            old(self)@.well_formed() ==> final(self)@.well_formed(),
    {
        if let Some(author_ntru_pk) = &self.state.author_ntru_pk {
            if let Some((_, own_ntru_pk)) = &self.state.opt_ntru {
                let header = self.state.link_gen.header_from(link_to, ContentType::Subscribe);
                let (nonce, unsubscribe_key) = draws.draw();
                let content = subscribe::ContentWrap {
                    link: link_to,
                    nonce,
                    unsubscribe_key,
                    subscriber_ntru_pk: own_ntru_pk,
                    author_ntru_pk,
                    prng: &self.state.prng,
                };
                let ghost post = self@;
                let message = PreparedMessage::new(&self.state.store, header, content);
                assert(SubscriberState::subscribe_prepared(old(self)@, *link_to, post, message));
                Ok(message)
            } else {
                Err(SubscriberError::NoOwnNtruKeyPair)
            }
        } else {
            Err(SubscriberError::NoAuthorNtruPublicKey)
        }
    }

    /// Subscribes to the channel.
    pub fn subscribe<RandomNonce, RandomKey, Wrap>(
        &mut self,
        link_to: &Tbits,
        info: Store::Info,
        draws: Draws<RandomNonce, RandomKey>,
        wrap: Wrap,
    ) -> (result: Result<TbinaryMessage, SubscriberError<Store::Error>>) where
        RandomNonce: FnOnce(usize) -> NTrytes,
        RandomKey: FnOnce(usize) -> NTrytes,
        Wrap: for <'c, 'd>FnOnce(
            &'d PreparedMessage<'c, Store, subscribe::ContentWrap<'c, Prng>>,
        ) -> Result<Sealed<Store::State>, Store::Error>,

        requires
            old(self)@.subscribe_refusal() is None ==> draws.ready(),
            forall|
                mid: SubscriberState<Prng, Store, LinkGen>,
                message: PreparedMessage<Store, subscribe::ContentWrap<Prng>>,
            |
                #[trigger] SubscriberState::subscribe_prepared(old(self)@, *link_to, mid, message)
                    && draws.drawn(
                    message.content.nonce,
                    message.content.unsubscribe_key,
                ) ==> call_requires(wrap, (&message,)),
        ensures
            SubscriberState::subscribed(
                old(self)@,
                *link_to,
                draws,
                info,
                wrap,
                final(self)@,
                result,
            ),
            SubscriberState::two_steps(old(self)@, final(self)@),
            old(self)@.well_formed() ==> final(self)@.well_formed(),
    {
        let wrapped = match self.prepare_subscribe(link_to, draws) {
            Ok(message) => {
                let outcome = wrap(&message);
                message.seal(outcome)
            },
            Err(error) => {
                assert(SubscriberState::step(self@, self@));
                return Err(error);
            },
        };
        self.send_wrapped(wrapped, info)
    }

    /// Prepares an unsubscription message.
    pub fn prepare_unsubscribe<'a>(&'a mut self, link_to: &'a Tbits) -> (result: Result<
        PreparedMessage<'a, Store, unsubscribe::ContentWrap<'a>>,
        SubscriberError<Store::Error>,
    >)
        ensures
            result is Ok,
            SubscriberState::unsubscribe_prepared(old(self)@, *link_to, final(self)@, result->Ok_0),
            SubscriberState::step(old(self)@, final(self)@),
            old(self)@.well_formed() ==> final(self)@.well_formed(),
    {
        let header = self.state.link_gen.header_from(link_to, ContentType::Unsubscribe);
        let content = unsubscribe::ContentWrap { link: link_to };
        Ok(PreparedMessage::new(&self.state.store, header, content))
    }

    /// Unsubscribes from the channel.
    pub fn unsubscribe<Wrap>(
        &mut self,
        link_to: &Tbits,
        info: Store::Info,
        wrap: Wrap,
    ) -> (result: Result<TbinaryMessage, SubscriberError<Store::Error>>) where
        Wrap: for <'c, 'd>FnOnce(
            &'d PreparedMessage<'c, Store, unsubscribe::ContentWrap<'c>>,
        ) -> Result<Sealed<Store::State>, Store::Error>,

        requires
            forall|
                mid: SubscriberState<Prng, Store, LinkGen>,
                message: PreparedMessage<Store, unsubscribe::ContentWrap>,
            |
                #[trigger] SubscriberState::unsubscribe_prepared(old(self)@, *link_to, mid, message)
                    ==> call_requires(wrap, (&message,)),
        ensures
            SubscriberState::unsubscribed(
                old(self)@,
                *link_to,
                info,
                wrap,
                final(self)@,
                result,
            ),
            SubscriberState::two_steps(old(self)@, final(self)@),
            old(self)@.well_formed() ==> final(self)@.well_formed(),
    {
        let wrapped = match self.prepare_unsubscribe(link_to) {
            Ok(message) => {
                let outcome = wrap(&message);
                message.seal(outcome)
            },
            Err(error) => {
                return Err(error);
            },
        };
        self.send_wrapped(wrapped, info)
    }

    /// The pre-shared key with the given identifier, if it is the Subscriber's own.
    pub fn lookup_psk<'b>(&'b self, pskid: &PskId) -> (found: Option<&'b Psk>)
        ensures
            found == self@.psk_for(pskid@),
    {
        match &self.state.opt_psk {
            Some((own_pskid, own_psk)) => {
                if pskid.same(own_pskid) {
                    Some(own_psk)
                } else {
                    None
                }
            },
            None => None,
        }
    }

    /// The private key for the NTRU public key with the given identifier, if it
    /// is the Subscriber's own.
    pub fn lookup_ntru_sk<'b>(&'b self, ntru_pkid: &NtruPkid) -> (found: Option<
        &'b NtruPrivateKey,
    >)
        ensures
            found == self@.ntru_sk_for(ntru_pkid@),
    {
        match &self.state.opt_ntru {
            Some((own_ntru_sk, own_ntru_pk)) => {
                if own_ntru_pk.has_pkid(ntru_pkid) {
                    Some(own_ntru_sk)
                } else {
                    None
                }
            },
            None => None,
        }
    }

    /// Unwraps an announcement. One of another channel is refused once the
    /// Subscriber is registered.
    pub fn unwrap_announcement<Ctx, Unwrap>(
        &self,
        preparsed: PreparsedMessage<Ctx>,
        unwrap: Unwrap,
    ) -> (result: Result<
        UnwrappedMessage<Store::State, announce::ContentUnwrap>,
        SubscriberError<Store::Error>,
    >) where
        Unwrap: FnOnce(&Header, Ctx, &Store) -> Result<
            Opened<Store::State, announce::ContentUnwrap>,
            Store::Error,
        >,

        requires
            self@.announcement_refusal(preparsed.header.link) is None ==> call_requires(
                unwrap,
                (&preparsed.header, preparsed.ctx, &self@.store),
            ),
        ensures
            match self@.announcement_refusal(preparsed.header.link) {
                Some(why) => crate::error::refused(result, why),
                None => exists|
                    outcome: Result<Opened<Store::State, announce::ContentUnwrap>, Store::Error>,
                |
                    #[trigger] call_ensures(
                        unwrap,
                        (&preparsed.header, preparsed.ctx, &self@.store),
                        outcome,
                    ) && result == crate::message::unwrapped_at(preparsed.header.link, outcome),
            },
    {
        if let Some(appinst) = &self.state.appinst {
            if !appinst.same(&preparsed.header.link) {
                return Err(
                    SubscriberError::AlreadyRegistered {
                        announced: preparsed.header.link.base.duplicate(),
                        registered: appinst.base.duplicate(),
                    },
                );
            }
        }
        let PreparsedMessage { header, ctx } = preparsed;
        let outcome = unwrap(&header, ctx, &self.state.store);
        UnwrappedMessage::from_opened(header, outcome)
    }

    /// Records an unwrapped announcement in the store and binds the Subscriber to
    /// the announced channel.
    pub fn commit_announcement(
        &mut self,
        unwrapped: UnwrappedMessage<Store::State, announce::ContentUnwrap>,
        info: Store::Info,
    ) -> (result: Result<(), SubscriberError<Store::Error>>)
        requires
            old(self)@.announcement_refusal(unwrapped.link) is None,
        ensures
            SubscriberState::announcement_handled(
                old(self)@,
                unwrapped.link,
                Ok(unwrapped.opened()),
                info,
                final(self)@,
                result,
            ),
            SubscriberState::step(old(self)@, final(self)@),
            old(self)@.well_formed() ==> final(self)@.well_formed(),
    {
        let link = unwrapped.link.duplicate();
        let result = match unwrapped.commit(&mut self.state.store, info) {
            Ok(content) => {
                self.state.appinst = Some(link);
                self.state.author_mss_pk = Some(content.mss_pk);
                self.state.author_ntru_pk = content.ntru_pk;
                Ok(())
            },
            Err(failure) => Err(SubscriberError::Failed(failure)),
        };
        assert(SubscriberState::announcement_handled(
            old(self)@,
            unwrapped.link,
            Ok(unwrapped.opened()),
            info,
            self@,
            result,
        ));
        result
    }

    /// Binds the Subscriber to the channel announced in the message, or
    /// subscribes to it anonymously. The Author is trusted unconditionally, and
    /// is free to choose any address. A Subscriber that is bound stays bound to
    /// its channel, whatever comes of the announcement.
    pub fn handle_announcement<Ctx, Unwrap>(
        &mut self,
        preparsed: PreparsedMessage<Ctx>,
        info: Store::Info,
        unwrap: Unwrap,
    ) -> (result: Result<(), SubscriberError<Store::Error>>) where
        Unwrap: FnOnce(&Header, Ctx, &Store) -> Result<
            Opened<Store::State, announce::ContentUnwrap>,
            Store::Error,
        >,

        requires
            old(self)@.announcement_refusal(preparsed.header.link) is None ==> call_requires(
                unwrap,
                (&preparsed.header, preparsed.ctx, &old(self)@.store),
            ),
        ensures
            SubscriberState::announcement_received(
                old(self)@,
                preparsed,
                info,
                unwrap,
                final(self)@,
                result,
            ),
            old(self)@.appinst is Some ==> final(self)@.channel() == old(self)@.channel(),
            result is Ok ==> final(self)@.channel() == Some(preparsed.header.link@),
            SubscriberState::step(old(self)@, final(self)@),
            old(self)@.well_formed() ==> final(self)@.well_formed(),
    {
        match self.unwrap_announcement(preparsed, unwrap) {
            Ok(unwrapped) => self.commit_announcement(unwrapped, info),
            Err(error) => Err(error),
        }
    }

    /// Unwraps a change of key. The message layer is given the Author's current
    /// key, to which the new one is linked; a Subscriber that is well-formed has
    /// one whenever it is registered.
    pub fn unwrap_change_key<Ctx, Unwrap>(
        &self,
        preparsed: PreparsedMessage<Ctx>,
        unwrap: Unwrap,
    ) -> (result: Result<
        UnwrappedMessage<Store::State, change_key::ContentUnwrap>,
        SubscriberError<Store::Error>,
    >) where
        Unwrap: FnOnce(&Header, Ctx, &Store, &MssPublicKey) -> Result<
            Opened<Store::State, change_key::ContentUnwrap>,
            Store::Error,
        >,

        requires
            self@.instance_refusal(preparsed.header.link) is None ==> self@.author_mss_pk is Some,
            self@.instance_refusal(preparsed.header.link) is None ==> call_requires(
                unwrap,
                (&preparsed.header, preparsed.ctx, &self@.store, &self@.author_mss_pk->Some_0),
            ),
        ensures
            match self@.instance_refusal(preparsed.header.link) {
                Some(why) => crate::error::refused(result, why),
                None => exists|
                    outcome: Result<Opened<Store::State, change_key::ContentUnwrap>, Store::Error>,
                |
                    #[trigger] call_ensures(
                        unwrap,
                        (&preparsed.header, preparsed.ctx, &self@.store, &self@.author_mss_pk->Some_0),
                        outcome,
                    ) && result == crate::message::unwrapped_at(preparsed.header.link, outcome),
            },
    {
        match self.ensure_appinst(&preparsed) {
            Ok(_) => {},
            Err(error) => {
                return Err(error);
            },
        }
        let PreparsedMessage { header, ctx } = preparsed;
        match &self.state.author_mss_pk {
            Some(mss_linked_pk) => {
                let outcome = unwrap(&header, ctx, &self.state.store, mss_linked_pk);
                UnwrappedMessage::from_opened(header, outcome)
            },
            None => Err(SubscriberError::NoAuthorMssPublicKey),
        }
    }

    /// Records an unwrapped change of key in the store and updates the Author's key.
    pub fn commit_change_key(
        &mut self,
        unwrapped: UnwrappedMessage<Store::State, change_key::ContentUnwrap>,
        info: Store::Info,
    ) -> (result: Result<(), SubscriberError<Store::Error>>)
        requires
            old(self)@.change_key_refusal(unwrapped.link) is None,
        ensures
            SubscriberState::change_key_handled(
                old(self)@,
                unwrapped.link,
                Ok(unwrapped.opened()),
                info,
                final(self)@,
                result,
            ),
            SubscriberState::step(old(self)@, final(self)@),
            old(self)@.well_formed() ==> final(self)@.well_formed(),
    {
        let result = match unwrapped.commit(&mut self.state.store, info) {
            Ok(content) => {
                self.state.author_mss_pk = Some(content.mss_pk);
                Ok(())
            },
            Err(failure) => Err(SubscriberError::Failed(failure)),
        };
        assert(SubscriberState::change_key_handled(
            old(self)@,
            unwrapped.link,
            Ok(unwrapped.opened()),
            info,
            self@,
            result,
        ));
        result
    }

    /// Verifies the Author's new MSS public key and makes it the Author's key.
    pub fn handle_change_key<Ctx, Unwrap>(
        &mut self,
        preparsed: PreparsedMessage<Ctx>,
        info: Store::Info,
        unwrap: Unwrap,
    ) -> (result: Result<(), SubscriberError<Store::Error>>) where
        Unwrap: FnOnce(&Header, Ctx, &Store, &MssPublicKey) -> Result<
            Opened<Store::State, change_key::ContentUnwrap>,
            Store::Error,
        >,

        requires
            old(self)@.change_key_refusal(preparsed.header.link) is None ==> call_requires(
                unwrap,
                (
                    &preparsed.header,
                    preparsed.ctx,
                    &old(self)@.store,
                    &old(self)@.author_mss_pk->Some_0,
                ),
            ),
        ensures
            SubscriberState::change_key_received(
                old(self)@,
                preparsed,
                info,
                unwrap,
                final(self)@,
                result,
            ),
            SubscriberState::step(old(self)@, final(self)@),
            old(self)@.well_formed() ==> final(self)@.well_formed(),
    {
        if self.state.author_mss_pk.is_none() {
            return Err(SubscriberError::NoAuthorMssPublicKey);
        }
        match self.unwrap_change_key(preparsed, unwrap) {
            Ok(unwrapped) => self.commit_change_key(unwrapped, info),
            Err(error) => Err(error),
        }
    }

    /// Unwraps a keyload. The message layer is given the Subscriber's key ring, on
    /// which it looks up the keys of the recipients by their identifiers.
    pub fn unwrap_keyload<Ctx, Unwrap>(
        &self,
        preparsed: PreparsedMessage<Ctx>,
        unwrap: Unwrap,
    ) -> (result: Result<
        UnwrappedMessage<Store::State, keyload::ContentUnwrap>,
        SubscriberError<Store::Error>,
    >) where
        Unwrap: FnOnce(&Header, Ctx, &Store, KeyRing<Prng, Store, LinkGen>) -> Result<
            Opened<Store::State, keyload::ContentUnwrap>,
            Store::Error,
        >,

        requires
            self@.instance_refusal(preparsed.header.link) is None ==> forall|
                ring: KeyRing<Prng, Store, LinkGen>,
            |
                #[trigger] ring.owner() == self@ ==> call_requires(
                    unwrap,
                    (&preparsed.header, preparsed.ctx, &self@.store, ring),
                ),
        ensures
            match self@.instance_refusal(preparsed.header.link) {
                Some(why) => crate::error::refused(result, why),
                None => exists|
                    ring: KeyRing<Prng, Store, LinkGen>,
                    outcome: Result<Opened<Store::State, keyload::ContentUnwrap>, Store::Error>,
                |
                    ring.owner() == self@ && #[trigger] call_ensures(
                        unwrap,
                        (&preparsed.header, preparsed.ctx, &self@.store, ring),
                        outcome,
                    ) && result == crate::message::unwrapped_at(preparsed.header.link, outcome),
            },
    {
        match self.ensure_appinst(&preparsed) {
            Ok(_) => {},
            Err(error) => {
                return Err(error);
            },
        }
        let PreparsedMessage { header, ctx } = preparsed;
        let outcome = unwrap(&header, ctx, &self.state.store, KeyRing::new(self));
        UnwrappedMessage::from_opened(header, outcome)
    }

    /// Records an unwrapped keyload in the store. Its nonce and key are not used
    /// explicitly: the sponge state is joined by the messages linked to it.
    pub fn commit_keyload(
        &mut self,
        unwrapped: UnwrappedMessage<Store::State, keyload::ContentUnwrap>,
        info: Store::Info,
    ) -> (result: Result<(), SubscriberError<Store::Error>>)
        requires
            old(self)@.instance_refusal(unwrapped.link) is None,
        ensures
            SubscriberState::keyload_handled(
                old(self)@,
                unwrapped.link,
                Ok(unwrapped.opened()),
                info,
                final(self)@,
                result,
            ),
            SubscriberState::step(old(self)@, final(self)@),
            old(self)@.well_formed() ==> final(self)@.well_formed(),
    {
        let result = match unwrapped.commit(&mut self.state.store, info) {
            Ok(_) => Ok(()),
            Err(failure) => Err(SubscriberError::Failed(failure)),
        };
        assert(SubscriberState::keyload_handled(
            old(self)@,
            unwrapped.link,
            Ok(unwrapped.opened()),
            info,
            self@,
            result,
        ));
        result
    }

    /// Tries to unwrap the session key from a keyload, with the Subscriber's
    /// pre-shared key or NTRU private key (if any).
    pub fn handle_keyload<Ctx, Unwrap>(
        &mut self,
        preparsed: PreparsedMessage<Ctx>,
        info: Store::Info,
        unwrap: Unwrap,
    ) -> (result: Result<(), SubscriberError<Store::Error>>) where
        Unwrap: FnOnce(&Header, Ctx, &Store, KeyRing<Prng, Store, LinkGen>) -> Result<
            Opened<Store::State, keyload::ContentUnwrap>,
            Store::Error,
        >,

        requires
            old(self)@.instance_refusal(preparsed.header.link) is None ==> forall|
                ring: KeyRing<Prng, Store, LinkGen>,
            |
                #[trigger] ring.owner() == old(self)@ ==> call_requires(
                    unwrap,
                    (&preparsed.header, preparsed.ctx, &old(self)@.store, ring),
                ),
        ensures
            SubscriberState::keyload_received(
                old(self)@,
                preparsed,
                info,
                unwrap,
                final(self)@,
                result,
            ),
            SubscriberState::step(old(self)@, final(self)@),
            old(self)@.well_formed() ==> final(self)@.well_formed(),
    {
        match self.unwrap_keyload(preparsed, unwrap) {
            Ok(unwrapped) => self.commit_keyload(unwrapped, info),
            Err(error) => Err(error),
        }
    }

    /// Unwraps a signed packet.
    pub fn unwrap_signed_packet<Ctx, Unwrap>(
        &self,
        preparsed: PreparsedMessage<Ctx>,
        unwrap: Unwrap,
    ) -> (result: Result<
        UnwrappedMessage<Store::State, signed_packet::ContentUnwrap>,
        SubscriberError<Store::Error>,
    >) where
        Unwrap: FnOnce(&Header, Ctx, &Store) -> Result<
            Opened<Store::State, signed_packet::ContentUnwrap>,
            Store::Error,
        >,

        requires
            self@.signed_packet_refusal(preparsed.header.link) is None ==> call_requires(
                unwrap,
                (&preparsed.header, preparsed.ctx, &self@.store),
            ),
        ensures
            match self@.signed_packet_refusal(preparsed.header.link) {
                Some(why) => crate::error::refused(result, why),
                None => exists|
                    outcome: Result<
                        Opened<Store::State, signed_packet::ContentUnwrap>,
                        Store::Error,
                    >,
                |
                    #[trigger] call_ensures(
                        unwrap,
                        (&preparsed.header, preparsed.ctx, &self@.store),
                        outcome,
                    ) && result == crate::message::unwrapped_at(preparsed.header.link, outcome),
            },
    {
        match self.ensure_appinst(&preparsed) {
            Ok(_) => {},
            Err(error) => {
                return Err(error);
            },
        }
        if self.state.author_mss_pk.is_none() {
            return Err(SubscriberError::CannotVerifySignature);
        }
        let PreparsedMessage { header, ctx } = preparsed;
        let outcome = unwrap(&header, ctx, &self.state.store);
        UnwrappedMessage::from_opened(header, outcome)
    }

    /// Records an unwrapped signed packet in the store and hands out its payloads,
    /// if the signature was made with the Author's MSS public key.
    pub fn commit_signed_packet(
        &mut self,
        unwrapped: UnwrappedMessage<Store::State, signed_packet::ContentUnwrap>,
        info: Store::Info,
    ) -> (result: Result<(Trytes, Trytes), SubscriberError<Store::Error>>)
        requires
            old(self)@.signed_packet_refusal(unwrapped.link) is None,
        ensures
            SubscriberState::signed_packet_handled(
                old(self)@,
                unwrapped.link,
                Ok(unwrapped.opened()),
                info,
                final(self)@,
                result,
            ),
            SubscriberState::step(old(self)@, final(self)@),
            old(self)@.well_formed() ==> final(self)@.well_formed(),
    {
        let result = match unwrapped.commit(&mut self.state.store, info) {
            Ok(content) => {
                let by_author = match &self.state.author_mss_pk {
                    Some(mss_pk) => mss_pk.same(&content.mss_pk),
                    None => false,
                };
                if by_author {
                    Ok((content.public_payload, content.masked_payload))
                } else {
                    Err(SubscriberError::BadSignature)
                }
            },
            Err(failure) => Err(SubscriberError::Failed(failure)),
        };
        assert(SubscriberState::signed_packet_handled(
            old(self)@,
            unwrapped.link,
            Ok(unwrapped.opened()),
            info,
            self@,
            result,
        ));
        result
    }

    /// Gets the payloads of a signed packet, and verifies that the signature was
    /// made with the Author's MSS public key. A packet with another signature is
    /// recorded in the store all the same.
    pub fn handle_signed_packet<Ctx, Unwrap>(
        &mut self,
        preparsed: PreparsedMessage<Ctx>,
        info: Store::Info,
        unwrap: Unwrap,
    ) -> (result: Result<(Trytes, Trytes), SubscriberError<Store::Error>>) where
        Unwrap: FnOnce(&Header, Ctx, &Store) -> Result<
            Opened<Store::State, signed_packet::ContentUnwrap>,
            Store::Error,
        >,

        requires
            old(self)@.handle_signed_packet_refusal(preparsed.header.link) is None ==> call_requires(
                unwrap,
                (&preparsed.header, preparsed.ctx, &old(self)@.store),
            ),
        ensures
            SubscriberState::signed_packet_received(
                old(self)@,
                preparsed,
                info,
                unwrap,
                final(self)@,
                result,
            ),
            SubscriberState::step(old(self)@, final(self)@),
            old(self)@.well_formed() ==> final(self)@.well_formed(),
    {
        if self.state.author_mss_pk.is_none() {
            return Err(SubscriberError::NoAuthorMssPublicKey);
        }
        match self.unwrap_signed_packet(preparsed, unwrap) {
            Ok(unwrapped) => self.commit_signed_packet(unwrapped, info),
            Err(error) => Err(error),
        }
    }

    /// Unwraps a tagged packet.
    pub fn unwrap_tagged_packet<Ctx, Unwrap>(
        &self,
        preparsed: PreparsedMessage<Ctx>,
        unwrap: Unwrap,
    ) -> (result: Result<
        UnwrappedMessage<Store::State, tagged_packet::ContentUnwrap>,
        SubscriberError<Store::Error>,
    >) where
        Unwrap: FnOnce(&Header, Ctx, &Store) -> Result<
            Opened<Store::State, tagged_packet::ContentUnwrap>,
            Store::Error,
        >,

        requires
            self@.instance_refusal(preparsed.header.link) is None ==> call_requires(
                unwrap,
                (&preparsed.header, preparsed.ctx, &self@.store),
            ),
        ensures
            match self@.instance_refusal(preparsed.header.link) {
                Some(why) => crate::error::refused(result, why),
                None => exists|
                    outcome: Result<
                        Opened<Store::State, tagged_packet::ContentUnwrap>,
                        Store::Error,
                    >,
                |
                    #[trigger] call_ensures(
                        unwrap,
                        (&preparsed.header, preparsed.ctx, &self@.store),
                        outcome,
                    ) && result == crate::message::unwrapped_at(preparsed.header.link, outcome),
            },
    {
        match self.ensure_appinst(&preparsed) {
            Ok(_) => {},
            Err(error) => {
                return Err(error);
            },
        }
        let PreparsedMessage { header, ctx } = preparsed;
        let outcome = unwrap(&header, ctx, &self.state.store);
        UnwrappedMessage::from_opened(header, outcome)
    }

    /// Records an unwrapped tagged packet in the store and hands out its payloads.
    pub fn commit_tagged_packet(
        &mut self,
        unwrapped: UnwrappedMessage<Store::State, tagged_packet::ContentUnwrap>,
        info: Store::Info,
    ) -> (result: Result<(Trytes, Trytes), SubscriberError<Store::Error>>)
        requires
            old(self)@.instance_refusal(unwrapped.link) is None,
        ensures
            SubscriberState::tagged_packet_handled(
                old(self)@,
                unwrapped.link,
                Ok(unwrapped.opened()),
                info,
                final(self)@,
                result,
            ),
            SubscriberState::step(old(self)@, final(self)@),
            old(self)@.well_formed() ==> final(self)@.well_formed(),
    {
        let result = match unwrapped.commit(&mut self.state.store, info) {
            Ok(content) => Ok((content.public_payload, content.masked_payload)),
            Err(failure) => Err(SubscriberError::Failed(failure)),
        };
        assert(SubscriberState::tagged_packet_handled(
            old(self)@,
            unwrapped.link,
            Ok(unwrapped.opened()),
            info,
            self@,
            result,
        ));
        result
    }

    /// Gets the public payload, decrypts the masked payload and verifies the MAC.
    pub fn handle_tagged_packet<Ctx, Unwrap>(
        &mut self,
        preparsed: PreparsedMessage<Ctx>,
        info: Store::Info,
        unwrap: Unwrap,
    ) -> (result: Result<(Trytes, Trytes), SubscriberError<Store::Error>>) where
        Unwrap: FnOnce(&Header, Ctx, &Store) -> Result<
            Opened<Store::State, tagged_packet::ContentUnwrap>,
            Store::Error,
        >,

        requires
            old(self)@.instance_refusal(preparsed.header.link) is None ==> call_requires(
                unwrap,
                (&preparsed.header, preparsed.ctx, &old(self)@.store),
            ),
        ensures
            SubscriberState::tagged_packet_received(
                old(self)@,
                preparsed,
                info,
                unwrap,
                final(self)@,
                result,
            ),
            SubscriberState::step(old(self)@, final(self)@),
            old(self)@.well_formed() ==> final(self)@.well_formed(),
    {
        match self.unwrap_tagged_packet(preparsed, unwrap) {
            Ok(unwrapped) => self.commit_tagged_packet(unwrapped, info),
            Err(error) => Err(error),
        }
    }
}

} // verus!
