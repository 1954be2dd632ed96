//! SignedPacket: a public and a masked payload, signed.
use vstd::prelude::*;
use crate::keys::MssPublicKey;
use crate::tbits::Trytes;

verus! {

/// What an unwrapped signed packet gives: the payloads, and the key that the
/// signature was made with.
#[derive(Clone, Debug, PartialEq, Eq)]
pub struct ContentUnwrap {
    pub public_payload: Trytes,
    pub masked_payload: Trytes,
    pub mss_pk: MssPublicKey,
}

} // verus!
