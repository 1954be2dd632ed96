//! Messages on their way out (prepared, then wrapped) and in (preparsed, then
//! unwrapped), and what each type of message carries.
use vstd::prelude::*;
use crate::error::SubscriberError;
use crate::link::{Header, Link, LinkStore};
use crate::tbits::Tbits;

pub mod announce;
pub mod change_key;
pub mod keyload;
pub mod signed_packet;
pub mod subscribe;
pub mod tagged_packet;
pub mod unsubscribe;

verus! {

/// A message ready to be wrapped: its header, its content, and the store in
/// which the message that it links to is found.
pub struct PreparedMessage<'a, Store, Content> {
    pub store: &'a Store,
    pub header: Header,
    pub content: Content,
}

impl<'a, Store, Content> PreparedMessage<'a, Store, Content> {
    /// Puts a message together.
    pub fn new(store: &'a Store, header: Header, content: Content) -> (prepared: Self)
        ensures
            prepared == (PreparedMessage { store, header, content }),
    {
        PreparedMessage { store, header, content }
    }

    /// The wrapped message, from what the message layer made of the prepared
    /// one. It stands at the link that its header gives.
    pub fn seal<State, E>(self, outcome: Result<Sealed<State>, E>) -> (wrapped: Result<
        WrappedMessage<State>,
        E,
    >)
        ensures
            match outcome {
                Ok(sealed) => wrapped == Ok::<WrappedMessage<State>, E>(
                    sealed.wrapped_at(self.header.link),
                ),
                Err(failure) => wrapped == Err::<WrappedMessage<State>, E>(failure),
            },
    {
        match outcome {
            Ok(sealed) => Ok(
                WrappedMessage {
                    spongos: sealed.spongos,
                    message: TbinaryMessage { link: self.header.link, body: sealed.body },
                },
            ),
            Err(failure) => Err(failure),
        }
    }
}

/// A message as the transport sends it.
#[derive(Clone, Debug, PartialEq, Eq)]
pub struct TbinaryMessage {
    pub link: Link,
    pub body: Tbits,
}

/// What the message layer makes of a prepared message: the body, and the sponge
/// state after it.
#[derive(Clone, Debug, PartialEq, Eq)]
pub struct Sealed<State> {
    pub spongos: State,
    pub body: Tbits,
}

impl<State> Sealed<State> {
    /// The message at the given link.
    pub open spec fn wrapped_at(self, link: Link) -> WrappedMessage<State> {
        WrappedMessage {
            spongos: self.spongos,
            message: TbinaryMessage { link, body: self.body },
        }
    }
}

/// A wrapped message, with the sponge state after it.
#[derive(Clone, Debug, PartialEq, Eq)]
pub struct WrappedMessage<State> {
    pub spongos: State,
    pub message: TbinaryMessage,
}

/// A received message of which only the header was read; `ctx` holds the rest.
#[derive(Clone, Debug, PartialEq, Eq)]
pub struct PreparsedMessage<Ctx> {
    pub header: Header,
    pub ctx: Ctx,
}

/// What the message layer reads from a received message: the content, and the
/// sponge state after it.
#[derive(Clone, Debug, PartialEq, Eq)]
pub struct Opened<State, Content> {
    pub spongos: State,
    pub content: Content,
}

/// An unwrapped message, with the sponge state after it.
#[derive(Clone, Debug, PartialEq, Eq)]
pub struct UnwrappedMessage<State, Content> {
    pub link: Link,
    pub spongos: State,
    pub content: Content,
}

/// A result with its value left out.
pub open spec fn outcome_of<T, E>(result: Result<T, E>) -> Result<(), E> {
    match result {
        Ok(_) => Ok(()),
        Err(error) => Err(error),
    }
}

impl<State> WrappedMessage<State> {
    /// Puts the state after the message, and the info that belongs to it, into
    /// the store under the message's link, and hands out the message.
    pub fn commit<Store: LinkStore<State = State>>(
        self,
        store: &mut Store,
        info: Store::Info,
    ) -> (result: Result<TbinaryMessage, Store::Error>)
        ensures
            crate::link::recorded(
                *old(store),
                self.message.link.rel@,
                self.spongos,
                info,
                *final(store),
                outcome_of(result),
            ),
            result matches Ok(message) ==> message == self.message,
    {
        match store.update(&self.message.link.rel, self.spongos, info) {
            Ok(done) => {
                assert(Ok::<(), Store::Error>(done) == Ok::<(), Store::Error>(()));
                Ok(self.message)
            },
            Err(error) => Err(error),
        }
    }
}

/// What unwrapping the message at `link` gives, for an answer of the message layer.
pub open spec fn unwrapped_at<State, Content, E>(
    link: Link,
    outcome: Result<Opened<State, Content>, E>,
) -> Result<UnwrappedMessage<State, Content>, SubscriberError<E>> {
    match outcome {
        Ok(opened) => Ok(
            UnwrappedMessage { link, spongos: opened.spongos, content: opened.content },
        ),
        Err(failure) => Err(SubscriberError::Failed(failure)),
    }
}

impl<State, Content> UnwrappedMessage<State, Content> {
    /// What the message layer read from the message.
    pub open spec fn opened(self) -> Opened<State, Content> {
        Opened { spongos: self.spongos, content: self.content }
    }

    /// The unwrapped message, from what the message layer read. It stands at the
    /// link that the header of the received message gives.
    pub fn from_opened<E>(header: Header, outcome: Result<Opened<State, Content>, E>) -> (result: Result<
        Self,
        SubscriberError<E>,
    >)
        ensures
            result == unwrapped_at(header.link, outcome),
    {
        match outcome {
            Ok(opened) => Ok(
                UnwrappedMessage {
                    link: header.link,
                    spongos: opened.spongos,
                    content: opened.content,
                },
            ),
            Err(failure) => Err(SubscriberError::Failed(failure)),
        }
    }

    /// Puts the state after the message, and the info that belongs to it, into
    /// the store under the message's link, and hands out the content.
    pub fn commit<Store: LinkStore<State = State>>(
        self,
        store: &mut Store,
        info: Store::Info,
    ) -> (result: Result<Content, Store::Error>)
        ensures
            crate::link::recorded(
                *old(store),
                self.link.rel@,
                self.spongos,
                info,
                *final(store),
                outcome_of(result),
            ),
            result matches Ok(content) ==> content == self.content,
    {
        match store.update(&self.link.rel, self.spongos, info) {
            Ok(done) => {
                assert(Ok::<(), Store::Error>(done) == Ok::<(), Store::Error>(()));
                Ok(self.content)
            },
            Err(error) => Err(error),
        }
    }
}

} // verus!
