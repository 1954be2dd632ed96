//! Key material: pre-shared keys, NTRU key pairs and the Author's signing key.
use vstd::prelude::*;
use crate::tbits::Tbits;

verus! {

/// Identifier of a pre-shared key.
pub type PskId = Tbits;

/// A pre-shared key.
pub type Psk = Tbits;

/// Identifier of an NTRU public key.
pub type NtruPkid = Tbits;

/// An NTRU private key.
#[derive(Clone, Debug, PartialEq, Eq)]
pub struct NtruPrivateKey {
    pub sk: Tbits,
}

/// An NTRU public key together with its identifier.
#[derive(Clone, Debug, PartialEq, Eq)]
pub struct NtruPublicKey {
    pub pk: Tbits,
    pub pkid: NtruPkid,
}

impl View for NtruPublicKey {
    type V = (Seq<u8>, Seq<u8>);

    open spec fn view(&self) -> (Seq<u8>, Seq<u8>) {
        (self.pk@, self.pkid@)
    }
}

impl NtruPublicKey {
    /// Whether the key has the given identifier.
    pub fn has_pkid(&self, pkid: &NtruPkid) -> (matches: bool)
        ensures
            matches == (self.pkid@ == pkid@),
    {
        self.pkid.same(pkid)
    }
}

/// An MSS public key, with which the Author's signatures are checked.
#[derive(Clone, Debug, PartialEq, Eq)]
pub struct MssPublicKey {
    pub pk: Tbits,
}

impl View for MssPublicKey {
    type V = Seq<u8>;

    open spec fn view(&self) -> Seq<u8> {
        self.pk@
    }
}

impl MssPublicKey {
    /// Whether two keys are the same.
    pub fn same(&self, other: &MssPublicKey) -> (equal: bool)
        ensures
            equal == (self@ == other@),
    {
        self.pk.same(&other.pk)
    }
}

/// An NTRU public key that may be missing, over plain values.
pub open spec fn ntru_pk_view(ntru_pk: Option<NtruPublicKey>) -> Option<(Seq<u8>, Seq<u8>)> {
    match ntru_pk {
        Some(key) => Some(key@),
        None => None,
    }
}

} // verus!
