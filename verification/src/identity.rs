//! Opaque principal identities: the actors of transfers and authorization
//! checks. An identity is a byte string (on the host chain, a 32-byte
//! public key); the vault's logic only ever stores and compares them.

use vstd::prelude::*;

verus! {

/// An opaque principal reference, usable as an actor in transfers and
/// authorization checks. The vault never inspects the bytes; it only
/// compares identities for exact equality.
pub struct Identity {
    bytes: Vec<u8>,
}

impl View for Identity {
    type V = Seq<u8>;

    closed spec fn view(&self) -> Seq<u8> {
        self.bytes@
    }
}

impl Identity {
    /// Wraps raw bytes as an identity.
    pub fn from_bytes(bytes: Vec<u8>) -> (r: Identity)
        ensures
            r@ == bytes@,
    {
        Identity { bytes }
    }

    /// The raw bytes of the identity.
    pub fn as_bytes(&self) -> (r: &Vec<u8>)
        ensures
            r@ == self@,
    {
        &self.bytes
    }

    /// Exact equality of two identities, byte for byte.
    pub fn same_as(&self, other: &Identity) -> (r: bool)
        ensures
            r == (self@ == other@),
    {
        bytes_eq(&self.bytes, &other.bytes)
    }
}

impl Clone for Identity {
    fn clone(&self) -> (r: Self)
        ensures
            r@ == self@,
    {
        let bytes = self.bytes.clone();
        proof {
            assert(bytes@ =~= self.bytes@);
        }
        Identity { bytes }
    }
}

/// Byte-for-byte equality of two byte vectors.
fn bytes_eq(a: &Vec<u8>, b: &Vec<u8>) -> (r: bool)
    ensures
        r == (a@ == b@),
{
    if a.len() != b.len() {
        return false;
    }
    let mut i: usize = 0;
    while i < a.len()
        invariant
            i <= a@.len(),
            a@.len() == b@.len(),
            forall|j: int| 0 <= j < i ==> a@[j] == b@[j],
        decreases a@.len() - i,
    {
        if a[i] != b[i] {
            return false;
        }
        i = i + 1;
    }
    proof {
        assert(a@ =~= b@);
    }
    true
}

} // verus!
