//! BLE identifiers: 128-bit UUIDs for services and characteristics.

use vstd::prelude::*;

verus! {

/// A 128-bit UUID identifying a BLE service or characteristic.
#[derive(Clone, Copy, Debug, PartialEq, Eq, Hash)]
pub struct Uuid(pub [u8; 16]);

impl Uuid {
    /// The raw bytes of this UUID, big-endian as printed.
    pub open spec fn bytes(self) -> Seq<u8> {
        self.0@
    }

    /// Equality on UUIDs is equality of their raw bytes.
    pub fn eq_bytes(&self, other: &Uuid) -> (r: bool)
        ensures
            r <==> self.bytes() =~= other.bytes(),
    {
        let mut i: usize = 0;
        while i < 16
            invariant
                i <= 16,
                forall|j: int| 0 <= j < i ==> self.0@[j] == other.0@[j],
            decreases 16 - i,
        {
            if self.0[i] != other.0[i] {
                return false;
            }
            i += 1;
        }
        true
    }
}

} // verus!
