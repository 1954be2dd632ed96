//! TaggedPacket: a public and a masked payload under a message authentication code.
use vstd::prelude::*;
use crate::tbits::{Tbits, Trytes};

verus! {

/// What a tagged packet is wrapped from.
pub struct ContentWrap<'a> {
    /// The message that the packet is linked to.
    pub link: &'a Tbits,
    pub public_payload: &'a Trytes,
    pub masked_payload: &'a Trytes,
}

/// What an unwrapped tagged packet gives.
#[derive(Clone, Debug, PartialEq, Eq)]
pub struct ContentUnwrap {
    pub public_payload: Trytes,
    pub masked_payload: Trytes,
}

} // verus!
