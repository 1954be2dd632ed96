//! Why the Subscriber refuses a message or an operation.
use vstd::prelude::*;
use vstd::string::*;
use crate::tbits::Tbits;

verus! {

/// An error of the Subscriber: a refusal of its own, or a failure reported by
/// the message layer or by the link store.
#[derive(Clone, Debug, PartialEq, Eq)]
pub enum SubscriberError<E> {
    /// There is no channel to which the message could belong.
    NotSubscribed,
    /// The message belongs to another channel instance.
    BadInstance,
    /// The Subscriber has no NTRU key pair of its own.
    NoOwnNtruKeyPair,
    /// The Author's NTRU public key is not known.
    NoAuthorNtruPublicKey,
    /// An announcement of another channel than the registered one; both channel
    /// instances are given.
    AlreadyRegistered { announced: Tbits, registered: Tbits },
    /// The Author's MSS public key is not known.
    NoAuthorMssPublicKey,
    /// The Author's MSS public key is not known when a signature is to be verified.
    CannotVerifySignature,
    /// A packet is signed with another key than the Author's.
    BadSignature,
    /// The message layer or the link store failed.
    Failed(E),
}

/// A refusal of the Subscriber itself, over plain values.
pub enum Refusal {
    NotSubscribed,
    BadInstance,
    NoOwnNtruKeyPair,
    NoAuthorNtruPublicKey,
    AlreadyRegistered { announced: Seq<u8>, registered: Seq<u8> },
    NoAuthorMssPublicKey,
    CannotVerifySignature,
    BadSignature,
}

impl<E> SubscriberError<E> {
    /// The refusal that the error stands for, if it is not a failure of another part.
    pub open spec fn refusal(self) -> Option<Refusal> {
        match self {
            SubscriberError::NotSubscribed => Some(Refusal::NotSubscribed),
            SubscriberError::BadInstance => Some(Refusal::BadInstance),
            SubscriberError::NoOwnNtruKeyPair => Some(Refusal::NoOwnNtruKeyPair),
            SubscriberError::NoAuthorNtruPublicKey => Some(Refusal::NoAuthorNtruPublicKey),
            SubscriberError::AlreadyRegistered { announced, registered } => Some(
                Refusal::AlreadyRegistered { announced: announced@, registered: registered@ },
            ),
            SubscriberError::NoAuthorMssPublicKey => Some(Refusal::NoAuthorMssPublicKey),
            SubscriberError::CannotVerifySignature => Some(Refusal::CannotVerifySignature),
            SubscriberError::BadSignature => Some(Refusal::BadSignature),
            SubscriberError::Failed(_) => None,
        }
    }

    /// The text of the error. The Debug form of a channel instance and the text
    /// of another part's failure are the caller's to give.
    pub fn message<D, S>(&self, debug: D, show: S) -> (text: String) where
        D: Fn(&Tbits) -> String,
        S: Fn(&E) -> String,

        requires
            forall|base: &Tbits| call_requires(debug, (base,)),
            forall|failure: &E| call_requires(show, (failure,)),
        ensures
            match *self {
                SubscriberError::NotSubscribed => text@
                    == "Subscriber is not subscribed to a channel."@,
                SubscriberError::BadInstance => text@ == "Bad message application instance."@,
                SubscriberError::NoOwnNtruKeyPair => text@
                    == "Subscriber doesn't have own NTRU key pair."@,
                SubscriberError::NoAuthorNtruPublicKey => text@
                    == "Subscriber doesn't have channel Author's NTRU public key."@,
                SubscriberError::AlreadyRegistered { announced, registered } => exists|
                    a: String,
                    b: String,
                |
                    #[trigger] call_ensures(debug, (&announced,), a) && #[trigger] call_ensures(
                        debug,
                        (&registered,),
                        b,
                    ) && text@ == "Got Announce with address "@ + a@
                        + ", but already registered to a channel "@ + b@,
                SubscriberError::NoAuthorMssPublicKey => text@
                    == "No Author's MSS public key found."@,
                SubscriberError::CannotVerifySignature => text@
                    == "No Author's MSS public key found, can't verify signature."@,
                SubscriberError::BadSignature => text@ == "Bad signed packet signature."@,
                SubscriberError::Failed(failure) => call_ensures(show, (&failure,), text),
            },
    {
        match self {
            SubscriberError::NotSubscribed => "Subscriber is not subscribed to a channel.".to_string(),
            SubscriberError::BadInstance => "Bad message application instance.".to_string(),
            SubscriberError::NoOwnNtruKeyPair => "Subscriber doesn't have own NTRU key pair.".to_string(),
            SubscriberError::NoAuthorNtruPublicKey =>
                "Subscriber doesn't have channel Author's NTRU public key.".to_string(),
            SubscriberError::AlreadyRegistered { announced, registered } => {
                let a = debug(announced);
                let b = debug(registered);
                let mut text = "Got Announce with address ".to_string();
                text.append(a.as_str());
                text.append(", but already registered to a channel ");
                text.append(b.as_str());
                assert(call_ensures(debug, (announced,), a) && call_ensures(debug, (registered,), b));
                text
            },
            SubscriberError::NoAuthorMssPublicKey => "No Author's MSS public key found.".to_string(),
            SubscriberError::CannotVerifySignature =>
                "No Author's MSS public key found, can't verify signature.".to_string(),
            SubscriberError::BadSignature => "Bad signed packet signature.".to_string(),
            SubscriberError::Failed(failure) => show(failure),
        }
    }
}

/// The operation was refused for the given reason.
pub open spec fn refused<T, E>(result: Result<T, SubscriberError<E>>, why: Refusal) -> bool {
    result matches Err(error) && error.refusal() == Some(why)
}

/// What the link store answered in an operation that reached it and ended with
/// the given result: only a failure comes from the store.
pub open spec fn store_outcome<T, E>(result: Result<T, SubscriberError<E>>) -> Result<(), E> {
    match result {
        Err(SubscriberError::Failed(failure)) => Err(failure),
        _ => Ok(()),
    }
}

} // verus!
