//! Strings of tbits: the trinary text in which identifiers, keys and payloads travel.
use vstd::prelude::*;

verus! {

/// A string of tbits, one tbit to a word, so that putting the words of two strings
/// one after another joins the strings, and strings of the same words are equal.
/// Strings that come packed, several tbits to a word, are unpacked before they
/// get here. The library never looks inside a word.
#[derive(Clone, Debug, PartialEq, Eq)]
pub struct Tbits {
    pub words: Vec<u8>,
}

/// The payload of a packet.
pub type Trytes = Tbits;

/// A nonce or a key of fixed size.
pub type NTrytes = Tbits;

impl View for Tbits {
    type V = Seq<u8>;

    open spec fn view(&self) -> Seq<u8> {
        self.words@
    }
}

impl Tbits {
    /// Whether two strings hold the same words.
    pub fn same(&self, other: &Tbits) -> (equal: bool)
        ensures
            equal == (self@ == other@),
    {
        if self.words.len() != other.words.len() {
            return false;
        }
        let mut i: usize = 0;
        while i < self.words.len()
            invariant
                i <= self.words.len(),
                self.words.len() == other.words.len(),
                forall|j: int| 0 <= j < i ==> self.words@[j] == other.words@[j],
            decreases self.words.len() - i,
        {
            if self.words[i] != other.words[i] {
                return false;
            }
            i = i + 1;
        }
        assert(self@ =~= other@);
        true
    }

    /// A copy of the string.
    pub fn duplicate(&self) -> (copy: Tbits)
        ensures
            copy@ == self@,
    {
        let words = self.words.clone();
        assert(words@ =~= self.words@);
        Tbits { words }
    }

    /// The string followed by another one.
    pub fn concat(&self, tail: &Tbits) -> (joined: Tbits)
        ensures
            joined@ == self@ + tail@,
    {
        let mut joined = self.duplicate();
        joined.words.extend_from_slice(tail.words.as_slice());
        assert(joined@ =~= self@ + tail@);
        joined
    }
}

} // verus!
