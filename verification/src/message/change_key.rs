//! ChangeKey: the Author moves to a new signing key.
use vstd::prelude::*;
use crate::keys::MssPublicKey;

verus! {

/// What an unwrapped change of key gives: the Author's new signing key.
#[derive(Clone, Debug, PartialEq, Eq)]
pub struct ContentUnwrap {
    pub mss_pk: MssPublicKey,
}

} // verus!
