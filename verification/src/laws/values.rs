//! What the values are that the Subscriber handles: strings of tbits, links, keys,
//! drawn values, messages on their way, and the texts of errors.
use vstd::prelude::*;
use crate::draws::Draws;
use crate::error::SubscriberError;
use crate::keys::{MssPublicKey, NtruPkid, NtruPublicKey};
use crate::link::{Header, Link, LinkStore};
use crate::message::{
    announce, Opened, PreparedMessage, Sealed, TbinaryMessage, UnwrappedMessage, WrappedMessage,
};
use crate::tbits::{NTrytes, Tbits};

verus! {

/// A string stands for its words, a link for the words of both its parts, a key for
/// the words that make it up, and an announcement for the keys that it gives.
pub proof fn law_values_stand_for_their_words(
    tbits: Tbits,
    link: Link,
    mss_pk: MssPublicKey,
    ntru_pk: NtruPublicKey,
    announced: announce::ContentUnwrap,
)
    ensures
        tbits@ == tbits.words@,
        link@ == (link.base.words@, link.rel.words@),
        mss_pk@ == mss_pk.pk.words@,
        ntru_pk@ == (ntru_pk.pk.words@, ntru_pk.pkid.words@),
        announced@.0 == announced.mss_pk.pk.words@,
        announced@.1 is Some <==> announced.ntru_pk is Some,
        announced.ntru_pk matches Some(key) ==> announced@.1 == Some(
            (key.pk.words@, key.pkid.words@),
        ),
{
}

/// Strings are the same if and only if they hold the same words.
pub proof fn law_same_strings_hold_same_words(a: Tbits, b: Tbits, equal: bool)
    requires
        call_ensures(Tbits::same, (&a, &b), equal),
    ensures
        equal <==> a.words@ == b.words@,
        call_requires(Tbits::same, (&a, &b)),
{
}

/// A copy holds the words of the string, and a joined string those of the first
/// followed by those of the second.
pub proof fn law_copied_and_joined_strings(a: Tbits, b: Tbits, copy: Tbits, joined: Tbits)
    requires
        call_ensures(Tbits::duplicate, (&a,), copy),
        call_ensures(Tbits::concat, (&a, &b), joined),
    ensures
        copy.words@ == a.words@,
        joined.words@.len() == a.words@.len() + b.words@.len(),
        forall|i: int| 0 <= i < a.words@.len() ==> joined.words@[i] == a.words@[i],
        forall|i: int|
            0 <= i < b.words@.len() ==> #[trigger] joined.words@[a.words@.len() + i]
                == b.words@[i],
        call_requires(Tbits::duplicate, (&a,)),
        call_requires(Tbits::concat, (&a, &b)),
{
}

/// Links are the same if and only if both parts hold the same words, lie in the same
/// channel if and only if the bases do, and a copy of a link has its parts.
pub proof fn law_links_are_told_apart(
    a: Link,
    b: Link,
    equal: bool,
    equal_base: bool,
    copy: Link,
)
    requires
        call_ensures(Link::same, (&a, &b), equal),
        call_ensures(Link::same_base, (&a, &b), equal_base),
        call_ensures(Link::duplicate, (&a,), copy),
    ensures
        equal <==> a.base.words@ == b.base.words@ && a.rel.words@ == b.rel.words@,
        equal_base <==> a.base.words@ == b.base.words@,
        copy.base.words@ == a.base.words@,
        copy.rel.words@ == a.rel.words@,
        call_requires(Link::same, (&a, &b)),
        call_requires(Link::same_base, (&a, &b)),
        call_requires(Link::duplicate, (&a,)),
{
}

/// An NTRU public key has the identifier with its words and no other, and signing
/// keys are the same if and only if they hold the same words.
pub proof fn law_keys_are_told_apart(
    ntru_pk: NtruPublicKey,
    pkid: NtruPkid,
    has_pkid: bool,
    a: MssPublicKey,
    b: MssPublicKey,
    equal: bool,
)
    requires
        call_ensures(NtruPublicKey::has_pkid, (&ntru_pk, &pkid), has_pkid),
        call_ensures(MssPublicKey::same, (&a, &b), equal),
    ensures
        has_pkid <==> ntru_pk.pkid.words@ == pkid.words@,
        equal <==> a.pk.words@ == b.pk.words@,
        call_requires(NtruPublicKey::has_pkid, (&ntru_pk, &pkid)),
        call_requires(MssPublicKey::same, (&a, &b)),
{
}

/// The nonce is what the first function gave for the size of nonces, and the key what
/// the second gave for the size of keys.
pub proof fn law_draw_asks_for_both_sizes<RandomNonce, RandomKey>(
    draws: Draws<RandomNonce, RandomKey>,
    values: (NTrytes, NTrytes),
) where RandomNonce: FnOnce(usize) -> NTrytes, RandomKey: FnOnce(usize) -> NTrytes
    requires
        call_ensures(Draws::<RandomNonce, RandomKey>::draw, (draws,), values),
    ensures
        call_ensures(draws.random_nonce, (draws.nonce_size,), values.0),
        call_ensures(draws.random_key, (draws.key_size,), values.1),
{
}

/// Values can be drawn whenever both functions can be asked for their sizes.
pub proof fn law_draw_is_allowed<RandomNonce, RandomKey>(
    draws: Draws<RandomNonce, RandomKey>,
) where RandomNonce: FnOnce(usize) -> NTrytes, RandomKey: FnOnce(usize) -> NTrytes
    requires
        call_requires(draws.random_nonce, (draws.nonce_size,)),
        call_requires(draws.random_key, (draws.key_size,)),
    ensures
        call_requires(Draws::<RandomNonce, RandomKey>::draw, (draws,)),
{
}

/// A prepared message is put together from its parts.
pub proof fn law_prepared_message_has_its_parts<Store, Content>(
    store: &Store,
    header: Header,
    content: Content,
    prepared: PreparedMessage<Store, Content>,
)
    requires
        call_ensures(
            PreparedMessage::<Store, Content>::new,
            (store, header, content),
            prepared,
        ),
    ensures
        prepared.store == store,
        prepared.header == header,
        prepared.content == content,
        call_requires(PreparedMessage::<Store, Content>::new, (store, header, content)),
{
}

/// A sealed message stands at the link of its header, with the body and the state
/// that the message layer gave; a failure of the message layer is passed on.
pub proof fn law_sealed_message_stands_at_its_link<Store, Content, State, E>(
    prepared: PreparedMessage<Store, Content>,
    outcome: Result<Sealed<State>, E>,
    result: Result<WrappedMessage<State>, E>,
)
    requires
        call_ensures(
            PreparedMessage::<Store, Content>::seal::<State, E>,
            (prepared, outcome),
            result,
        ),
    ensures
        outcome matches Ok(sealed) ==> result matches Ok(wrapped) && wrapped.spongos
            == sealed.spongos && wrapped.message.body == sealed.body && wrapped.message.link
            == prepared.header.link,
        outcome matches Err(failure) ==> result matches Err(reported) && reported == failure,
        call_requires(PreparedMessage::<Store, Content>::seal::<State, E>, (prepared, outcome)),
{
}

/// An unwrapped message stands at the link of its header, with the content and the
/// state that the message layer read; a failure of the message layer is reported.
pub proof fn law_unwrapped_message_stands_at_its_link<State, Content, E>(
    header: Header,
    outcome: Result<Opened<State, Content>, E>,
    result: Result<UnwrappedMessage<State, Content>, SubscriberError<E>>,
)
    requires
        call_ensures(
            UnwrappedMessage::<State, Content>::from_opened::<E>,
            (header, outcome),
            result,
        ),
    ensures
        outcome matches Ok(opened) ==> result matches Ok(unwrapped) && unwrapped.link
            == header.link && unwrapped.spongos == opened.spongos && unwrapped.content
            == opened.content,
        outcome matches Err(failure) ==> result matches Err(SubscriberError::Failed(reported))
            && reported == failure,
        call_requires(UnwrappedMessage::<State, Content>::from_opened::<E>, (header, outcome)),
{
}

/// Committing a wrapped message puts its state and info into the store under its link
/// and hands the message out, unless the store fails.
pub proof fn law_wrapped_message_is_committed<Store: LinkStore>(
    wrapped: WrappedMessage<Store::State>,
    store: &mut Store,
    info: Store::Info,
    result: Result<TbinaryMessage, Store::Error>,
)
    requires
        call_ensures(
            WrappedMessage::<Store::State>::commit::<Store>,
            (wrapped, store, info),
            result,
        ),
    ensures
        match result {
            Ok(message) => {
                &&& message == wrapped.message
                &&& Store::updated(
                    *old(store),
                    wrapped.message.link.rel@,
                    wrapped.spongos,
                    info,
                    *final(store),
                    Ok(()),
                )
                &&& old(store).entries() matches Some(entries) ==> final(store).entries() == Some(
                    entries.insert(wrapped.message.link.rel@, (wrapped.spongos, info)),
                )
            },
            Err(failure) => Store::updated(
                *old(store),
                wrapped.message.link.rel@,
                wrapped.spongos,
                info,
                *final(store),
                Err(failure),
            ),
        },
        call_requires(WrappedMessage::<Store::State>::commit::<Store>, (wrapped, store, info)),
{
}

/// Committing an unwrapped message puts its state and info into the store under its
/// link and hands the content out, unless the store fails.
pub proof fn law_unwrapped_message_is_committed<Store: LinkStore, Content>(
    unwrapped: UnwrappedMessage<Store::State, Content>,
    store: &mut Store,
    info: Store::Info,
    result: Result<Content, Store::Error>,
)
    requires
        call_ensures(
            UnwrappedMessage::<Store::State, Content>::commit::<Store>,
            (unwrapped, store, info),
            result,
        ),
    ensures
        match result {
            Ok(content) => {
                &&& content == unwrapped.content
                &&& Store::updated(
                    *old(store),
                    unwrapped.link.rel@,
                    unwrapped.spongos,
                    info,
                    *final(store),
                    Ok(()),
                )
                &&& old(store).entries() matches Some(entries) ==> final(store).entries() == Some(
                    entries.insert(unwrapped.link.rel@, (unwrapped.spongos, info)),
                )
            },
            Err(failure) => Store::updated(
                *old(store),
                unwrapped.link.rel@,
                unwrapped.spongos,
                info,
                *final(store),
                Err(failure),
            ),
        },
        call_requires(
            UnwrappedMessage::<Store::State, Content>::commit::<Store>,
            (unwrapped, store, info),
        ),
{
}

/// Each refusal has a text of its own; that of a second channel names first the
/// announced instance and then the registered one, and a failure has the text that
/// `show` gives it.
pub proof fn law_errors_have_their_texts<E, D, S>(
    error: SubscriberError<E>,
    debug: D,
    show: S,
    text: String,
) where D: Fn(&Tbits) -> String, S: Fn(&E) -> String
    requires
        call_ensures(SubscriberError::<E>::message::<D, S>, (&error, debug, show), text),
    ensures
        error is NotSubscribed ==> text@ == "Subscriber is not subscribed to a channel."@,
        error is BadInstance ==> text@ == "Bad message application instance."@,
        error is NoOwnNtruKeyPair ==> text@ == "Subscriber doesn't have own NTRU key pair."@,
        error is NoAuthorNtruPublicKey ==> text@
            == "Subscriber doesn't have channel Author's NTRU public key."@,
        error is NoAuthorMssPublicKey ==> text@ == "No Author's MSS public key found."@,
        error is CannotVerifySignature ==> text@
            == "No Author's MSS public key found, can't verify signature."@,
        error is BadSignature ==> text@ == "Bad signed packet signature."@,
        error matches SubscriberError::AlreadyRegistered { announced, registered } ==> exists|
            a: String,
            b: String,
        |
            #[trigger] call_ensures(debug, (&announced,), a) && #[trigger] call_ensures(
                debug,
                (&registered,),
                b,
            ) && text@ == "Got Announce with address "@ + a@
                + ", but already registered to a channel "@ + b@,
        error matches SubscriberError::Failed(failure) ==> call_ensures(show, (&failure,), text),
{
}

/// The text of any error can be asked for, with functions that can be called.
pub proof fn law_errors_texts_are_allowed<E, D, S>(
    error: SubscriberError<E>,
    debug: D,
    show: S,
) where
    D: Fn(&Tbits) -> String,
    S: Fn(&E) -> String,

    requires
        forall|base: &Tbits| call_requires(debug, (base,)),
        forall|failure: &E| call_requires(show, (failure,)),
    ensures
        call_requires(SubscriberError::<E>::message::<D, S>, (&error, debug, show)),
{
}

} // verus!
