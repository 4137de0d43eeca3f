//! Fixed-length account addresses and program identities.

use vstd::prelude::*;

verus! {

/// Number of bytes in an address.
pub const ADDR_LEN: usize = 32;

/// An account address or program identity: an opaque 32-byte identifier.
pub struct Addr {
    pub bytes: Vec<u8>,
}

impl View for Addr {
    type V = Seq<u8>;

    open spec fn view(&self) -> Seq<u8> {
        self.bytes@
    }
}

impl Addr {
    /// A well-formed address holds exactly 32 bytes.
    pub open spec fn wf(&self) -> bool {
        self@.len() == ADDR_LEN
    }

    /// Builds an address from its bytes.
    pub fn from_bytes(bytes: Vec<u8>) -> (r: Addr)
        requires
            bytes@.len() == ADDR_LEN,
        ensures
            r.wf(),
            r@ == bytes@,
    {
        Addr { bytes }
    }

    /// Compares two addresses byte for byte.
    pub fn matches(&self, other: &Addr) -> (r: bool)
        ensures
            r <==> self@ == other@,
    {
        if self.bytes.len() != other.bytes.len() {
            assert(self@ != other@);
            return false;
        }
        let n = self.bytes.len();
        let mut i: usize = 0;
        while i < n
            invariant
                n == self@.len(),
                n == other@.len(),
                i <= n,
                forall|j: int| 0 <= j < i ==> self@[j] == other@[j],
            decreases n - i,
        {
            if self.bytes[i] != other.bytes[i] {
                assert(self@[i as int] != other@[i as int]);
                return false;
            }
            i += 1;
        }
        proof {
            assert(self@ =~= other@);
        }
        true
    }
}

impl Clone for Addr {
    /// Copies the address, keeping its bytes.
    fn clone(&self) -> (r: Self)
        ensures
            r@ == self@,
    {
        let n = self.bytes.len();
        let mut bytes: Vec<u8> = Vec::new();
        let mut i: usize = 0;
        while i < n
            invariant
                n == self@.len(),
                i <= n,
                bytes@.len() == i,
                forall|j: int| 0 <= j < i ==> bytes@[j] == self@[j],
            decreases n - i,
        {
            bytes.push(self.bytes[i]);
            i += 1;
        }
        proof {
            assert(bytes@ =~= self@);
        }
        Addr { bytes }
    }
}

} // verus!
