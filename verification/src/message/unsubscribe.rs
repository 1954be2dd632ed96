//! Unsubscribe: a Subscriber leaves the channel.
use vstd::prelude::*;
use crate::tbits::Tbits;

verus! {

/// What an unsubscription is wrapped from.
pub struct ContentWrap<'a> {
    /// The message that the unsubscription is linked to.
    pub link: &'a Tbits,
}

} // verus!
