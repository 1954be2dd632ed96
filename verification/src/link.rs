//! Links, the headers that carry them, and what a user supplies to derive
//! links and to store them.
use vstd::prelude::*;
use crate::tbits::Tbits;

verus! {

/// Address of a message: the channel instance (the base), and the place of
/// the message within it (the relative part).
#[derive(Clone, Debug, PartialEq, Eq)]
pub struct Link {
    pub base: Tbits,
    pub rel: Tbits,
}

impl View for Link {
    type V = (Seq<u8>, Seq<u8>);

    open spec fn view(&self) -> (Seq<u8>, Seq<u8>) {
        (self.base@, self.rel@)
    }
}

impl Link {
    /// Whether two links lie in the same channel instance.
    pub fn same_base(&self, other: &Link) -> (equal: bool)
        ensures
            equal == (self.base@ == other.base@),
    {
        self.base.same(&other.base)
    }

    /// Whether two links are the same.
    pub fn same(&self, other: &Link) -> (equal: bool)
        ensures
            equal == (self@ == other@),
    {
        self.base.same(&other.base) && self.rel.same(&other.rel)
    }

    /// A copy of the link.
    pub fn duplicate(&self) -> (copy: Link)
        ensures
            copy@ == self@,
    {
        Link { base: self.base.duplicate(), rel: self.rel.duplicate() }
    }
}

/// What a message carries.
#[derive(Clone, Copy, Debug, PartialEq, Eq, Structural)]
pub enum ContentType {
    Announce,
    ChangeKey,
    Keyload,
    SignedPacket,
    TaggedPacket,
    Subscribe,
    Unsubscribe,
}

/// Header of a message.
#[derive(Clone, Debug, PartialEq, Eq)]
pub struct Header {
    pub link: Link,
    pub content_type: ContentType,
}

/// Derives the links of new messages. Implemented by the user of the library:
/// a generator keeps a state of its own and may derive links pseudorandomly.
pub trait ChannelLinkGenerator: Sized {
    /// The step that `header_from` takes: from the generator `pre`, asked for a
    /// message of type `content_type` linked to `link_to`, to `post` and `header`.
    /// An implementation that says nothing of its steps leaves this out.
    open spec fn derived(
        pre: Self,
        link_to: Seq<u8>,
        content_type: ContentType,
        post: Self,
        header: Header,
    ) -> bool {
        true
    }

    /// Derives the header of a new message that is linked to `link_to`.
    fn header_from(&mut self, link_to: &Tbits, content_type: ContentType) -> (header: Header)
        ensures
            Self::derived(*old(self), link_to@, content_type, *final(self), header),
    ;
}

/// Link store, implemented by the user of the library: a map from the relative
/// link of a message to the sponge state after that message and to the info
/// that the user attached to it.
pub trait LinkStore: Sized {
    type State;

    type Info;

    type Error;

    /// What the store holds, for an implementation that says so.
    open spec fn entries(&self) -> Option<Map<Seq<u8>, (Self::State, Self::Info)>> {
        None
    }

    /// The step that `update` takes: from the store `pre`, handed `rel`, `state`
    /// and `info`, to `post` and `outcome`. An implementation that says nothing
    /// of its steps leaves this out.
    open spec fn updated(
        pre: Self,
        rel: Seq<u8>,
        state: Self::State,
        info: Self::Info,
        post: Self,
        outcome: Result<(), Self::Error>,
    ) -> bool {
        true
    }

    /// Puts the state and the info of a message under its relative link.
    fn update(&mut self, rel: &Tbits, state: Self::State, info: Self::Info) -> (outcome: Result<
        (),
        Self::Error,
    >)
        ensures
            Self::updated(*old(self), rel@, state, info, *final(self), outcome),
            outcome is Ok ==> (old(self).entries() matches Some(entries) ==> final(self).entries()
                == Some(entries.insert(rel@, (state, info)))),
    ;
}

/// The store `pre` was handed the state and the info of the message at `rel`,
/// and became `post` with the given outcome: on success the message is in the
/// store, and every other entry is as it was.
pub open spec fn recorded<Store: LinkStore>(
    pre: Store,
    rel: Seq<u8>,
    state: Store::State,
    info: Store::Info,
    post: Store,
    outcome: Result<(), Store::Error>,
) -> bool {
    &&& Store::updated(pre, rel, state, info, post, outcome)
    &&& outcome is Ok ==> (pre.entries() matches Some(entries) ==> post.entries() == Some(
        entries.insert(rel, (state, info)),
    ))
}

} // verus!
