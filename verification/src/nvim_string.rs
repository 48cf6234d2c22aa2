//! Owned byte strings in the shape the foreign side expects: the host
//! API traffics in length-counted byte buffers, not UTF-8 text.

use vstd::prelude::*;

verus! {

/// An owned, length-counted byte string.
#[derive(Clone, Debug)]
pub struct NvimString {
    pub bytes: Vec<u8>,
}

impl View for NvimString {
    type V = Seq<u8>;

    open spec fn view(&self) -> Seq<u8> {
        self.bytes@
    }
}

impl NvimString {
    /// Takes ownership of a byte buffer.
    pub fn from_bytes(bytes: Vec<u8>) -> (r: NvimString)
        ensures
            r@ == bytes@,
    {
        NvimString { bytes }
    }

    pub fn len(&self) -> (r: usize)
        ensures
            r == self@.len(),
    {
        self.bytes.len()
    }

    pub fn as_bytes(&self) -> (r: &Vec<u8>)
        ensures
            r@ == self@,
    {
        &self.bytes
    }

    /// Gives the backing buffer away.
    pub fn into_bytes(self) -> (r: Vec<u8>)
        ensures
            r@ == self@,
    {
        self.bytes
    }
}

/// Byte-for-byte comparison of two byte buffers.
pub fn bytes_eq(a: &Vec<u8>, b: &Vec<u8>) -> (r: bool)
    ensures
        r == (a@ == b@),
{
    if a.len() != b.len() {
        return false;
    }
    let mut i: usize = 0;
    while i < a.len()
        invariant
            i <= a@.len(),
            a@.len() == b@.len(),
            forall|j: int| 0 <= j < i ==> a@[j] == b@[j],
        decreases a@.len() - i,
    {
        if a[i] != b[i] {
            return false;
        }
        i += 1;
    }
    proof {
        assert(a@ =~= b@);
    }
    true
}

impl PartialEq for NvimString {
    fn eq(&self, other: &NvimString) -> (r: bool) {
        bytes_eq(&self.bytes, &other.bytes)
    }
}

impl vstd::std_specs::cmp::PartialEqSpecImpl for NvimString {
    open spec fn obeys_eq_spec() -> bool {
        true
    }

    open spec fn eq_spec(&self, other: &NvimString) -> bool {
        self@ == other@
    }
}

} // verus!
