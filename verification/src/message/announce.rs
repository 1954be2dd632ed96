//! Announce: the Author opens a channel.
use vstd::prelude::*;
use crate::keys::{MssPublicKey, NtruPublicKey};

verus! {

/// What an unwrapped announcement gives: the key with which the Author signs,
/// and the Author's NTRU public key if there is one.
#[derive(Clone, Debug, PartialEq, Eq)]
pub struct ContentUnwrap {
    pub mss_pk: MssPublicKey,
    pub ntru_pk: Option<NtruPublicKey>,
}

impl View for ContentUnwrap {
    type V = (Seq<u8>, Option<(Seq<u8>, Seq<u8>)>);

    open spec fn view(&self) -> (Seq<u8>, Option<(Seq<u8>, Seq<u8>)>) {
        (self.mss_pk@, crate::keys::ntru_pk_view(self.ntru_pk))
    }
}

} // verus!
