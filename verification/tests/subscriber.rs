use channel_subscriber::draws::Draws;
use channel_subscriber::error::SubscriberError;
use channel_subscriber::keys::{MssPublicKey, NtruPrivateKey, NtruPublicKey};
use channel_subscriber::link::{ChannelLinkGenerator, ContentType, Header, Link, LinkStore};
use channel_subscriber::message::{
    announce, change_key, keyload, signed_packet, subscribe, tagged_packet, unsubscribe, Opened,
    PreparsedMessage, Sealed, TbinaryMessage,
};
use channel_subscriber::state::SubscriberState;
use channel_subscriber::subscriber::SubscriberT;
use channel_subscriber::tbits::Tbits;

type State = Vec<u8>;
type Info = u32;
type Failure = String;

/// A store in memory, which can be told to fail.
#[derive(Clone, Debug, PartialEq)]
struct MemStore {
    entries: Vec<(Tbits, State, Info)>,
    full: bool,
}

impl MemStore {
    fn find(&self, rel: &Tbits) -> Option<(State, Info)> {
        for (own, state, info) in &self.entries {
            if own == rel {
                return Some((state.clone(), *info));
            }
        }
        None
    }
}

impl LinkStore for MemStore {
    type State = State;
    type Info = Info;
    type Error = Failure;

    fn update(&mut self, rel: &Tbits, state: State, info: Info) -> Result<(), Failure> {
        if self.full {
            return Err("store is full".to_string());
        }
        self.entries.retain(|entry| entry.0 != *rel);
        self.entries.push((rel.clone(), state, info));
        Ok(())
    }
}

/// Numbers the messages of one channel.
#[derive(Clone, Debug, PartialEq)]
struct Numbering {
    base: Tbits,
    next: u8,
    asked: Vec<(Tbits, ContentType)>,
}

impl ChannelLinkGenerator for Numbering {
    fn header_from(&mut self, link_to: &Tbits, content_type: ContentType) -> Header {
        self.asked.push((link_to.clone(), content_type));
        self.next += 1;
        Header {
            link: Link { base: self.base.clone(), rel: tb(&[self.next]) },
            content_type,
        }
    }
}

type Subscriber = SubscriberT<u64, MemStore, Numbering>;

/// The Subscriber with its state changed, as one restored from elsewhere.
fn edited(
    subscriber: Subscriber,
    edit: impl FnOnce(&mut SubscriberState<u64, MemStore, Numbering>),
) -> Subscriber {
    let mut state = subscriber.into_state();
    edit(&mut state);
    SubscriberT::from_state(state)
}

/// Draws of the given values, which are asked for with the sizes of the sponge.
fn draws(
    nonce: Tbits,
    key: Tbits,
) -> Draws<impl FnOnce(usize) -> Tbits, impl FnOnce(usize) -> Tbits> {
    Draws {
        nonce_size: 81,
        key_size: 243,
        random_nonce: move |size| {
            assert_eq!(size, 81);
            nonce
        },
        random_key: move |size| {
            assert_eq!(size, 243);
            key
        },
    }
}

/// Draws that must not happen.
fn no_draws() -> Draws<impl FnOnce(usize) -> Tbits, impl FnOnce(usize) -> Tbits> {
    Draws {
        nonce_size: 81,
        key_size: 243,
        random_nonce: |_| panic!("nothing is drawn"),
        random_key: |_| panic!("nothing is drawn"),
    }
}

fn tb(words: &[u8]) -> Tbits {
    Tbits { words: words.to_vec() }
}

fn link(base: &[u8], rel: &[u8]) -> Link {
    Link { base: tb(base), rel: tb(rel) }
}

fn mss(words: &[u8]) -> MssPublicKey {
    MssPublicKey { pk: tb(words) }
}

fn ntru(words: &[u8], pkid: &[u8]) -> NtruPublicKey {
    NtruPublicKey { pk: tb(words), pkid: tb(pkid) }
}

fn own_pair() -> (NtruPrivateKey, NtruPublicKey) {
    (NtruPrivateKey { sk: tb(&[70]) }, ntru(&[71, 72], &[71]))
}

fn empty_store() -> MemStore {
    MemStore { entries: vec![], full: false }
}

fn numbering() -> Numbering {
    Numbering { base: tb(&[1, 1]), next: 100, asked: vec![] }
}

fn fresh(with_ntru: bool) -> Subscriber {
    let pair = if with_ntru { Some(own_pair()) } else { None };
    SubscriberT::with_key_pair(empty_store(), numbering(), 42, pair)
}

fn incoming(at: Link, content_type: ContentType) -> PreparsedMessage<Vec<u8>> {
    PreparsedMessage { header: Header { link: at, content_type }, ctx: vec![5, 5] }
}

fn announced(
    ctx: Vec<u8>,
    key: MssPublicKey,
    author: Option<NtruPublicKey>,
) -> Result<Opened<State, announce::ContentUnwrap>, Failure> {
    Ok(Opened {
        spongos: ctx,
        content: announce::ContentUnwrap { mss_pk: key, ntru_pk: author },
    })
}

/// A Subscriber bound to the channel at ([1, 1], [0]).
fn bound(with_ntru: bool, author: Option<NtruPublicKey>) -> Subscriber {
    let mut subscriber = fresh(with_ntru);
    let message = incoming(link(&[1, 1], &[0]), ContentType::Announce);
    let result =
        subscriber.handle_announcement(message, 1, |_, ctx, _| announced(ctx, mss(&[9]), author));
    assert_eq!(result, Ok(()));
    subscriber
}

fn signed(
    key: MssPublicKey,
) -> Result<Opened<State, signed_packet::ContentUnwrap>, Failure> {
    Ok(Opened {
        spongos: vec![6],
        content: signed_packet::ContentUnwrap {
            public_payload: tb(&[20]),
            masked_payload: tb(&[21, 21]),
            mss_pk: key,
        },
    })
}

fn tagged() -> Result<Opened<State, tagged_packet::ContentUnwrap>, Failure> {
    Ok(Opened {
        spongos: vec![7],
        content: tagged_packet::ContentUnwrap {
            public_payload: tb(&[30]),
            masked_payload: tb(&[]),
        },
    })
}

fn text(error: &SubscriberError<Failure>) -> String {
    error.message(|base| format!("{:?}", base.words), |failure| failure.clone())
}

// Creation

#[test]
fn gen_without_ntru_calls_nothing() {
    let subscriber: Subscriber = SubscriberT::gen(
        empty_store(),
        numbering(),
        42,
        &tb(&[8]),
        false,
        |_| panic!("no encoding"),
        |_, _| panic!("no key pair"),
    );
    assert!(subscriber.state().opt_ntru.is_none());
    assert!(subscriber.state().opt_psk.is_none());
    assert!(subscriber.state().appinst.is_none());
    assert!(subscriber.state().author_mss_pk.is_none());
    assert!(subscriber.state().author_ntru_pk.is_none());
    assert_eq!(subscriber.state().prng, 42);
    assert_eq!(subscriber.state().store, empty_store());
    assert_eq!(subscriber.state().link_gen, numbering());
}

#[test]
fn gen_with_ntru_prefixes_the_nonce() {
    let subscriber: Subscriber = SubscriberT::gen(
        empty_store(),
        numbering(),
        42,
        &tb(&[8, 9]),
        true,
        |trytes| Tbits { words: trytes.as_bytes().to_vec() },
        |prng, nonce| {
            assert_eq!(*prng, 42);
            assert_eq!(nonce.words, b"NTRUNONCE\x08\x09".to_vec());
            own_pair()
        },
    );
    assert_eq!(subscriber.state().opt_ntru, Some(own_pair()));
    assert!(subscriber.state().appinst.is_none());
}

#[test]
fn state_is_stored_and_restored() {
    let subscriber = bound(true, Some(ntru(&[4], &[3])));
    let mut restored: Subscriber = SubscriberT::from_state(subscriber.into_state());
    assert_eq!(restored.state().appinst, Some(link(&[1, 1], &[0])));
    assert_eq!(restored.state().opt_ntru, Some(own_pair()));
    assert_eq!(restored.state().author_ntru_pk, Some(ntru(&[4], &[3])));
    let packet = incoming(link(&[1, 1], &[1]), ContentType::SignedPacket);
    assert!(restored.handle_signed_packet(packet, 1, |_, _, _| signed(mss(&[9]))).is_ok());
}

// Receiving: announcements

#[test]
fn announcement_binds_the_subscriber() {
    let subscriber = bound(false, Some(ntru(&[4], &[3])));
    assert_eq!(subscriber.state().appinst, Some(link(&[1, 1], &[0])));
    assert_eq!(subscriber.state().author_mss_pk, Some(mss(&[9])));
    assert_eq!(subscriber.state().author_ntru_pk, Some(ntru(&[4], &[3])));
    assert_eq!(subscriber.state().store.find(&tb(&[0])), Some((vec![5, 5], 1)));
    assert_eq!(subscriber.state().link_gen, numbering());
}

#[test]
fn same_announcement_is_handled_again() {
    let mut subscriber = bound(false, Some(ntru(&[4], &[3])));
    let message = incoming(link(&[1, 1], &[0]), ContentType::Announce);
    let result = subscriber.handle_announcement(message, 2, |_, ctx, _| announced(ctx, mss(&[10]), None));
    assert_eq!(result, Ok(()));
    assert_eq!(subscriber.state().appinst, Some(link(&[1, 1], &[0])));
    assert_eq!(subscriber.state().author_mss_pk, Some(mss(&[10])));
    assert_eq!(subscriber.state().author_ntru_pk, None);
    assert_eq!(subscriber.state().store.find(&tb(&[0])), Some((vec![5, 5], 2)));
}

#[test]
fn other_announcement_is_refused() {
    let mut subscriber = bound(false, None);
    for other in [link(&[2, 2], &[0]), link(&[1, 1], &[1])] {
        let base = other.base.clone();
        let result = subscriber.handle_announcement(
            incoming(other, ContentType::Announce),
            2,
            |_, _, _| panic!("not unwrapped"),
        );
        let error = result.unwrap_err();
        assert_eq!(
            error,
            SubscriberError::AlreadyRegistered { announced: base, registered: tb(&[1, 1]) }
        );
    }
    assert_eq!(subscriber.state().appinst, Some(link(&[1, 1], &[0])));
    assert_eq!(subscriber.state().store.entries.len(), 1);
}

#[test]
fn announcement_that_does_not_unwrap_changes_nothing() {
    let mut subscriber = fresh(false);
    let message = incoming(link(&[1, 1], &[0]), ContentType::Announce);
    let result = subscriber.handle_announcement(message, 1, |_, _, _| Err("bad mac".to_string()));
    assert_eq!(result, Err(SubscriberError::Failed("bad mac".to_string())));
    assert_eq!(subscriber.state().appinst, None);
    assert_eq!(subscriber.state().author_mss_pk, None);
    assert_eq!(subscriber.state().store, empty_store());
}

#[test]
fn announcement_that_the_store_rejects_does_not_bind() {
    let mut subscriber = fresh(false);
    subscriber = edited(subscriber, |state| state.store.full = true);
    let message = incoming(link(&[1, 1], &[0]), ContentType::Announce);
    let result = subscriber.handle_announcement(message, 1, |_, ctx, _| announced(ctx, mss(&[9]), None));
    assert_eq!(result, Err(SubscriberError::Failed("store is full".to_string())));
    assert_eq!(subscriber.state().appinst, None);
    assert_eq!(subscriber.state().author_mss_pk, None);
}

#[test]
fn unwrap_announcement_leaves_the_subscriber() {
    let subscriber = fresh(false);
    let message = incoming(link(&[1, 1], &[0]), ContentType::Announce);
    let unwrapped = subscriber
        .unwrap_announcement(message, |header, ctx, store| {
            assert_eq!(header.link, link(&[1, 1], &[0]));
            assert_eq!(*store, empty_store());
            announced(ctx, mss(&[9]), None)
        })
        .unwrap();
    assert_eq!(unwrapped.link, link(&[1, 1], &[0]));
    assert_eq!(unwrapped.content.mss_pk, mss(&[9]));
    assert!(subscriber.state().appinst.is_none());
}

#[test]
fn bound_subscriber_is_never_rebound() {
    let mut subscriber = bound(false, None);
    let before = subscriber.state().store.clone();
    let other = incoming(link(&[2], &[0]), ContentType::Announce);
    let result = subscriber.handle_announcement(other, 3, |_, ctx, _| {
        announced(ctx, mss(&[66]), None)
    });
    assert!(result.is_err());
    assert_eq!(subscriber.state().store, before);
    let again = incoming(link(&[1, 1], &[0]), ContentType::Announce);
    let result = subscriber.handle_announcement(again, 3, |_, _, _| Err("bad mac".to_string()));
    assert!(result.is_err());
    assert_eq!(subscriber.state().appinst, Some(link(&[1, 1], &[0])));
    assert_eq!(subscriber.state().author_mss_pk, Some(mss(&[9])));
}

#[test]
fn repeated_announcement_with_the_same_content_changes_nothing() {
    let mut subscriber = bound(false, Some(ntru(&[4], &[3])));
    let again = incoming(link(&[1, 1], &[0]), ContentType::Announce);
    let result = subscriber.handle_announcement(again, 2, |_, ctx, _| {
        announced(ctx, mss(&[9]), Some(ntru(&[4], &[3])))
    });
    assert_eq!(result, Ok(()));
    assert_eq!(subscriber.state().appinst, Some(link(&[1, 1], &[0])));
    assert_eq!(subscriber.state().author_mss_pk, Some(mss(&[9])));
    assert_eq!(subscriber.state().author_ntru_pk, Some(ntru(&[4], &[3])));
}

// Receiving: refusals

#[test]
fn unregistered_subscriber_refuses_every_other_message() {
    let mut subscriber = fresh(false);
    let at = || link(&[1, 1], &[1]);
    let result = subscriber.handle_keyload(
        incoming(at(), ContentType::Keyload),
        1,
        |_, _, _, _| panic!("not unwrapped"),
    );
    assert_eq!(result, Err(SubscriberError::NotSubscribed));
    let result = subscriber.handle_tagged_packet(
        incoming(at(), ContentType::TaggedPacket),
        1,
        |_, _, _| panic!("not unwrapped"),
    );
    assert_eq!(result, Err(SubscriberError::NotSubscribed));
    let result = subscriber.handle_signed_packet(
        incoming(at(), ContentType::SignedPacket),
        1,
        |_, _, _| panic!("not unwrapped"),
    );
    assert_eq!(result, Err(SubscriberError::NoAuthorMssPublicKey));
    let result = subscriber.unwrap_signed_packet(
        incoming(at(), ContentType::SignedPacket),
        |_, _, _| panic!("not unwrapped"),
    );
    assert_eq!(result, Err(SubscriberError::NotSubscribed));
    let result = subscriber.handle_change_key(
        incoming(at(), ContentType::ChangeKey),
        1,
        |_, _, _, _| panic!("not unwrapped"),
    );
    assert_eq!(result, Err(SubscriberError::NoAuthorMssPublicKey));
    let result = subscriber.unwrap_change_key(
        incoming(at(), ContentType::ChangeKey),
        |_, _, _, _| panic!("not unwrapped"),
    );
    assert_eq!(result, Err(SubscriberError::NotSubscribed));
    assert_eq!(subscriber.state().store, empty_store());
}

#[test]
fn message_of_another_channel_is_refused() {
    let mut subscriber = bound(true, None);
    let before = subscriber.state().store.clone();
    let at = || link(&[1, 2], &[0]);
    let result = subscriber.handle_keyload(
        incoming(at(), ContentType::Keyload),
        1,
        |_, _, _, _| panic!("not unwrapped"),
    );
    assert_eq!(result, Err(SubscriberError::BadInstance));
    let result = subscriber.handle_tagged_packet(
        incoming(at(), ContentType::TaggedPacket),
        1,
        |_, _, _| panic!("not unwrapped"),
    );
    assert_eq!(result, Err(SubscriberError::BadInstance));
    let result = subscriber.handle_signed_packet(
        incoming(at(), ContentType::SignedPacket),
        1,
        |_, _, _| panic!("not unwrapped"),
    );
    assert_eq!(result, Err(SubscriberError::BadInstance));
    let result = subscriber.handle_change_key(
        incoming(at(), ContentType::ChangeKey),
        1,
        |_, _, _, _| panic!("not unwrapped"),
    );
    assert_eq!(result, Err(SubscriberError::BadInstance));
    assert_eq!(subscriber.state().store, before);
    assert_eq!(subscriber.state().author_mss_pk, Some(mss(&[9])));
}

#[test]
fn base_that_extends_the_channel_is_another_channel() {
    let mut subscriber = bound(false, None);
    for base in [vec![1], vec![1, 1, 1], vec![]] {
        let result = subscriber.handle_tagged_packet(
            incoming(link(&base, &[1]), ContentType::TaggedPacket),
            1,
            |_, _, _| panic!("not unwrapped"),
        );
        assert_eq!(result, Err(SubscriberError::BadInstance));
    }
}

#[test]
fn signature_is_not_verified_without_the_authors_key() {
    let mut subscriber = bound(false, None);
    subscriber = edited(subscriber, |state| state.author_mss_pk = None);
    let result = subscriber.unwrap_signed_packet(
        incoming(link(&[1, 1], &[1]), ContentType::SignedPacket),
        |_, _, _| panic!("not unwrapped"),
    );
    assert_eq!(result, Err(SubscriberError::CannotVerifySignature));
    let result = subscriber.handle_signed_packet(
        incoming(link(&[1, 1], &[1]), ContentType::SignedPacket),
        1,
        |_, _, _| panic!("not unwrapped"),
    );
    assert_eq!(result, Err(SubscriberError::NoAuthorMssPublicKey));
}

// Receiving: change of key, signed packets

#[test]
fn signed_packet_of_the_author_gives_its_payloads() {
    let mut subscriber = bound(false, None);
    let message = incoming(link(&[1, 1], &[1]), ContentType::SignedPacket);
    let result = subscriber.handle_signed_packet(message, 3, |header, _, store| {
        assert_eq!(header.link, link(&[1, 1], &[1]));
        assert_eq!(store.entries.len(), 1);
        signed(mss(&[9]))
    });
    assert_eq!(result, Ok((tb(&[20]), tb(&[21, 21]))));
    assert_eq!(subscriber.state().store.find(&tb(&[1])), Some((vec![6], 3)));
    assert_eq!(subscriber.state().store.find(&tb(&[0])), Some((vec![5, 5], 1)));
    assert_eq!(subscriber.state().author_mss_pk, Some(mss(&[9])));
}

#[test]
fn signed_packet_of_another_key_is_recorded_and_rejected() {
    let mut subscriber = bound(false, None);
    let message = incoming(link(&[1, 1], &[1]), ContentType::SignedPacket);
    let result = subscriber.handle_signed_packet(message, 3, |_, _, _| signed(mss(&[8])));
    assert_eq!(result, Err(SubscriberError::BadSignature));
    assert_eq!(subscriber.state().store.find(&tb(&[1])), Some((vec![6], 3)));
    assert_eq!(subscriber.state().author_mss_pk, Some(mss(&[9])));
}

#[test]
fn changed_key_decides_later_signatures() {
    let mut subscriber = bound(false, Some(ntru(&[4], &[3])));
    let message = incoming(link(&[1, 1], &[1]), ContentType::ChangeKey);
    let result = subscriber.handle_change_key(message, 2, |_, _, _, linked| {
        assert_eq!(*linked, mss(&[9]));
        Ok(Opened {
            spongos: vec![1],
            content: change_key::ContentUnwrap { mss_pk: mss(&[12]) },
        })
    });
    assert_eq!(result, Ok(()));
    assert_eq!(subscriber.state().author_mss_pk, Some(mss(&[12])));
    assert_eq!(subscriber.state().appinst, Some(link(&[1, 1], &[0])));
    assert_eq!(subscriber.state().author_ntru_pk, Some(ntru(&[4], &[3])));
    let message = incoming(link(&[1, 1], &[2]), ContentType::SignedPacket);
    let result = subscriber.handle_signed_packet(message, 3, |_, _, _| signed(mss(&[9])));
    assert_eq!(result, Err(SubscriberError::BadSignature));
    let message = incoming(link(&[1, 1], &[3]), ContentType::SignedPacket);
    let result = subscriber.handle_signed_packet(message, 3, |_, _, _| signed(mss(&[12])));
    assert!(result.is_ok());
}

#[test]
fn change_of_key_that_the_store_rejects_keeps_the_key() {
    let mut subscriber = bound(false, None);
    subscriber = edited(subscriber, |state| state.store.full = true);
    let message = incoming(link(&[1, 1], &[1]), ContentType::ChangeKey);
    let result = subscriber.handle_change_key(message, 2, |_, _, _, _| {
        Ok(Opened {
            spongos: vec![1],
            content: change_key::ContentUnwrap { mss_pk: mss(&[12]) },
        })
    });
    assert_eq!(result, Err(SubscriberError::Failed("store is full".to_string())));
    assert_eq!(subscriber.state().author_mss_pk, Some(mss(&[9])));
}

// Receiving: keyloads and tagged packets

#[test]
fn keyload_is_unwrapped_with_own_keys() {
    let mut subscriber = bound(true, None);
    subscriber = edited(subscriber, |state| state.opt_psk = Some((tb(&[50]), tb(&[51]))));
    let message = incoming(link(&[1, 1], &[1]), ContentType::Keyload);
    let result = subscriber.handle_keyload(message, 4, |_, _, _, keys| {
        assert_eq!(keys.lookup_psk(&tb(&[50])), Some(&tb(&[51])));
        assert_eq!(keys.lookup_psk(&tb(&[51])), None);
        assert_eq!(keys.lookup_ntru_sk(&tb(&[71])), Some(&own_pair().0));
        assert_eq!(keys.lookup_ntru_sk(&tb(&[71, 72])), None);
        Ok(Opened {
            spongos: vec![2, 2],
            content: keyload::ContentUnwrap { nonce: tb(&[1]), key: tb(&[2]) },
        })
    });
    assert_eq!(result, Ok(()));
    assert_eq!(subscriber.state().store.find(&tb(&[1])), Some((vec![2, 2], 4)));
    assert_eq!(subscriber.state().opt_psk, Some((tb(&[50]), tb(&[51]))));
    assert_eq!(subscriber.state().opt_ntru, Some(own_pair()));
}

#[test]
fn lookups_find_nothing_without_keys() {
    let subscriber = fresh(false);
    assert_eq!(subscriber.lookup_psk(&tb(&[])), None);
    assert_eq!(subscriber.lookup_ntru_sk(&tb(&[])), None);
}

#[test]
fn tagged_packet_gives_its_payloads() {
    let mut subscriber = bound(false, None);
    let message = incoming(link(&[1, 1], &[1]), ContentType::TaggedPacket);
    let result = subscriber.handle_tagged_packet(message, 5, |_, _, _| tagged());
    assert_eq!(result, Ok((tb(&[30]), tb(&[]))));
    assert_eq!(subscriber.state().store.find(&tb(&[1])), Some((vec![7], 5)));
}

#[test]
fn tagged_packet_that_does_not_unwrap_is_not_recorded() {
    let mut subscriber = bound(false, None);
    let before = subscriber.state().store.clone();
    let message = incoming(link(&[1, 1], &[1]), ContentType::TaggedPacket);
    let result = subscriber.handle_tagged_packet(message, 5, |_, _, _| Err("bad mac".to_string()));
    assert_eq!(result, Err(SubscriberError::Failed("bad mac".to_string())));
    assert_eq!(subscriber.state().store, before);
}

// Sending

fn sealed(spongos: State, body: Tbits) -> Result<Sealed<State>, Failure> {
    Ok(Sealed { spongos, body })
}

#[test]
fn keyload_is_shared_with_psk_holder_and_author() {
    let mut subscriber = bound(false, Some(ntru(&[4], &[3])));
    subscriber = edited(subscriber, |state| state.opt_psk = Some((tb(&[50]), tb(&[51]))));
    let result = subscriber.share_keyload(&tb(&[0]), 6, draws(tb(&[60]), tb(&[61])), |message| {
        assert_eq!(*message.content.link, tb(&[0]));
        assert_eq!(message.content.nonce, tb(&[60]));
        assert_eq!(message.content.key, tb(&[61]));
        assert_eq!(message.content.psks, Some((&tb(&[50]), &tb(&[51]))));
        assert_eq!(message.content.ntru_pks, Some(&ntru(&[4], &[3])));
        assert_eq!(*message.content.prng, 42);
        assert_eq!(message.store.entries.len(), 1);
        assert_eq!(message.header.content_type, ContentType::Keyload);
        sealed(vec![13], tb(&[99]))
    });
    assert_eq!(
        result,
        Ok(TbinaryMessage { link: link(&[1, 1], &[101]), body: tb(&[99]) })
    );
    assert_eq!(subscriber.state().store.find(&tb(&[101])), Some((vec![13], 6)));
    assert_eq!(subscriber.state().link_gen.asked, vec![(tb(&[0]), ContentType::Keyload)]);
}

#[test]
fn keyload_without_recipients_is_prepared() {
    let mut subscriber = fresh(true);
    let link_to = tb(&[0]);
    let message = subscriber.prepare_keyload(&link_to, draws(tb(&[60]), tb(&[61]))).unwrap();
    assert_eq!(message.content.psks, None);
    assert_eq!(message.content.ntru_pks, None);
}

#[test]
fn message_that_does_not_wrap_is_not_recorded() {
    let mut subscriber = bound(false, None);
    let before = subscriber.state().store.clone();
    let result = subscriber.tag_packet(&tb(&[0]), &tb(&[2]), &tb(&[3]), 6, |_| {
        Err("no such link".to_string())
    });
    assert_eq!(result, Err(SubscriberError::Failed("no such link".to_string())));
    assert_eq!(subscriber.state().store, before);
    // The link was derived before the message was wrapped.
    assert_eq!(subscriber.state().link_gen.next, 101);
}

#[test]
fn tagged_packet_carries_its_payloads() {
    let mut subscriber = bound(false, None);
    let result = subscriber.tag_packet(&tb(&[0]), &tb(&[2]), &tb(&[3, 4]), 6, |message| {
        let content: &tagged_packet::ContentWrap = &message.content;
        assert_eq!(*content.public_payload, tb(&[2]));
        assert_eq!(*content.masked_payload, tb(&[3, 4]));
        let body = content.public_payload.concat(content.masked_payload);
        sealed(vec![], body)
    });
    assert_eq!(result.unwrap().body, tb(&[2, 3, 4]));
    assert_eq!(subscriber.state().store.find(&tb(&[101])), Some((vec![], 6)));
    assert_eq!(subscriber.state().link_gen.asked, vec![(tb(&[0]), ContentType::TaggedPacket)]);
}

#[test]
fn message_that_the_store_rejects_is_not_handed_out() {
    let mut subscriber = bound(false, None);
    subscriber = edited(subscriber, |state| state.store.full = true);
    let result = subscriber.unsubscribe(&tb(&[0]), 6, |_| sealed(vec![], tb(&[])));
    assert_eq!(result, Err(SubscriberError::Failed("store is full".to_string())));
}

#[test]
fn subscription_goes_from_own_key_to_the_authors() {
    let mut subscriber = bound(true, Some(ntru(&[4], &[3])));
    let result = subscriber.subscribe(&tb(&[0]), 7, draws(tb(&[60]), tb(&[61])), |message| {
        let content: &subscribe::ContentWrap<u64> = &message.content;
        assert_eq!(*content.link, tb(&[0]));
        assert_eq!(content.nonce, tb(&[60]));
        assert_eq!(content.unsubscribe_key, tb(&[61]));
        assert_eq!(*content.subscriber_ntru_pk, own_pair().1);
        assert_eq!(*content.author_ntru_pk, ntru(&[4], &[3]));
        assert_eq!(*content.prng, 42);
        sealed(vec![14], tb(&[98]))
    });
    assert_eq!(result.unwrap().body, tb(&[98]));
    assert_eq!(subscriber.state().store.find(&tb(&[101])), Some((vec![14], 7)));
    assert_eq!(subscriber.state().link_gen.asked, vec![(tb(&[0]), ContentType::Subscribe)]);
    assert_eq!(subscriber.state().appinst, Some(link(&[1, 1], &[0])));
}

#[test]
fn subscription_needs_both_ntru_keys() {
    let mut subscriber = bound(false, None);
    let result = subscriber.subscribe(&tb(&[0]), 7, no_draws(), |_| panic!("not wrapped"));
    assert_eq!(result, Err(SubscriberError::NoAuthorNtruPublicKey));
    let mut subscriber = bound(true, None);
    let result = subscriber.subscribe(&tb(&[0]), 7, no_draws(), |_| panic!("not wrapped"));
    assert_eq!(result, Err(SubscriberError::NoAuthorNtruPublicKey));
    let mut subscriber = bound(false, Some(ntru(&[4], &[3])));
    let result = subscriber.subscribe(&tb(&[0]), 7, no_draws(), |_| panic!("not wrapped"));
    assert_eq!(result, Err(SubscriberError::NoOwnNtruKeyPair));
    assert_eq!(subscriber.state().link_gen, numbering());
    assert_eq!(subscriber.state().store.entries.len(), 1);
}

#[test]
fn unsubscription_keeps_the_channel() {
    let mut subscriber = bound(true, Some(ntru(&[4], &[3])));
    let result = subscriber.unsubscribe(&tb(&[0]), 8, |message| {
        let content: &unsubscribe::ContentWrap = &message.content;
        assert_eq!(*content.link, tb(&[0]));
        sealed(vec![15], tb(&[97]))
    });
    assert_eq!(result.unwrap().link, link(&[1, 1], &[101]));
    assert_eq!(subscriber.state().link_gen.asked, vec![(tb(&[0]), ContentType::Unsubscribe)]);
    assert_eq!(subscriber.state().appinst, Some(link(&[1, 1], &[0])));
    assert_eq!(subscriber.state().author_mss_pk, Some(mss(&[9])));
    assert_eq!(subscriber.state().author_ntru_pk, Some(ntru(&[4], &[3])));
}

#[test]
fn tagged_packet_comes_back_as_it_was_tagged() {
    let mut sender = bound(false, None);
    let mut receiver = bound(false, None);
    let message = sender
        .tag_packet(&tb(&[0]), &tb(&[2]), &tb(&[3, 4]), 6, |message| {
            let (state, _) = message.store.find(message.content.link).unwrap();
            let mut body = message.content.public_payload.clone();
            for word in &message.content.masked_payload.words {
                body.words.push(word ^ state[0]);
            }
            sealed(vec![1], body)
        })
        .unwrap();
    let preparsed = PreparsedMessage {
        header: Header { link: message.link.clone(), content_type: ContentType::TaggedPacket },
        ctx: message.body.words,
    };
    let result = receiver.handle_tagged_packet(preparsed, 7, |_, ctx: Vec<u8>, store| {
        let (state, _) = store.find(&tb(&[0])).unwrap();
        let masked: Vec<u8> = ctx[1..].iter().map(|word| word ^ state[0]).collect();
        Ok(Opened {
            spongos: vec![1],
            content: tagged_packet::ContentUnwrap {
                public_payload: tb(&ctx[..1]),
                masked_payload: tb(&masked),
            },
        })
    });
    assert_eq!(result, Ok((tb(&[2]), tb(&[3, 4]))));
    assert_eq!(receiver.state().store.find(&message.link.rel), Some((vec![1], 7)));
}

// A run

#[test]
fn binding_and_own_keys_survive_a_run() {
    let mut subscriber = bound(true, None);
    subscriber = edited(subscriber, |state| state.opt_psk = Some((tb(&[50]), tb(&[51]))));
    let packet = incoming(link(&[1, 1], &[1]), ContentType::TaggedPacket);
    assert!(subscriber.handle_tagged_packet(packet, 1, |_, _, _| tagged()).is_ok());
    let packet = incoming(link(&[1, 1], &[2]), ContentType::SignedPacket);
    assert!(subscriber.handle_signed_packet(packet, 1, |_, _, _| signed(mss(&[0]))).is_err());
    let sent = subscriber.unsubscribe(&tb(&[0]), 8, |_| sealed(vec![], tb(&[])));
    assert!(sent.is_ok());
    let again = incoming(link(&[1, 1], &[0]), ContentType::Announce);
    let result = subscriber.handle_announcement(again, 1, |_, ctx, _| announced(ctx, mss(&[9]), None));
    assert_eq!(result, Ok(()));
    assert_eq!(subscriber.state().appinst, Some(link(&[1, 1], &[0])));
    assert_eq!(subscriber.state().opt_psk, Some((tb(&[50]), tb(&[51]))));
    assert_eq!(subscriber.state().opt_ntru, Some(own_pair()));
    assert_eq!(subscriber.state().prng, 42);
    // The channel is still open to its own messages, and to no others.
    let packet = incoming(link(&[1, 1], &[77]), ContentType::TaggedPacket);
    assert!(subscriber.handle_tagged_packet(packet, 1, |_, _, _| tagged()).is_ok());
    let packet = incoming(link(&[1], &[1]), ContentType::TaggedPacket);
    let result = subscriber.handle_tagged_packet(packet, 1, |_, _, _| tagged());
    assert_eq!(result, Err(SubscriberError::BadInstance));
}

// Texts of the errors

#[test]
fn errors_have_their_texts() {
    let cases: Vec<(SubscriberError<Failure>, &str)> = vec![
        (SubscriberError::NotSubscribed, "Subscriber is not subscribed to a channel."),
        (SubscriberError::BadInstance, "Bad message application instance."),
        (SubscriberError::NoOwnNtruKeyPair, "Subscriber doesn't have own NTRU key pair."),
        (
            SubscriberError::NoAuthorNtruPublicKey,
            "Subscriber doesn't have channel Author's NTRU public key.",
        ),
        (
            SubscriberError::AlreadyRegistered { announced: tb(&[2]), registered: tb(&[1, 1]) },
            "Got Announce with address [2], but already registered to a channel [1, 1]",
        ),
        (SubscriberError::NoAuthorMssPublicKey, "No Author's MSS public key found."),
        (
            SubscriberError::CannotVerifySignature,
            "No Author's MSS public key found, can't verify signature.",
        ),
        (SubscriberError::BadSignature, "Bad signed packet signature."),
        (SubscriberError::Failed("bad mac".to_string()), "bad mac"),
    ];
    for (error, expected) in cases {
        assert_eq!(text(&error), expected);
    }
}
