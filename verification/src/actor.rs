//! 256-bit identifiers of actors (users and programs).

use vstd::prelude::*;

verus! {

broadcast use vstd::array::group_array_axioms;

/// The 32-byte identifier of a user or a program.
#[derive(Clone, Copy, Debug)]
pub struct ActorId {
    pub bytes: [u8; 32],
}

impl ActorId {
    /// Wraps a raw 32-byte identifier.
    pub fn new(bytes: [u8; 32]) -> (id: ActorId)
        ensures
            id.bytes == bytes,
    {
        ActorId { bytes }
    }

    /// The identifier whose bytes are all zero.
    pub fn zero() -> (id: ActorId)
        ensures
            forall|i: int| 0 <= i < 32 ==> id.bytes[i] == 0u8,
    {
        ActorId { bytes: [0u8; 32] }
    }
}

impl ActorId {
    /// Whether this identifier is the one built from `value`: the eight
    /// little-endian bytes of `value` stand at positions 12 to 19, every other
    /// byte is zero.
    pub open spec fn holds_u64(self, value: u64) -> bool {
        forall|i: int|
            0 <= i < 32 ==> #[trigger] self.bytes[i] == (if 12 <= i < 20 {
                ((value >> ((8 * (i - 12)) as u64)) & 0xffu64) as u8
            } else {
                0u8
            })
    }

    /// The identifier built from `value`.
    pub open spec fn from_u64_spec(value: u64) -> ActorId {
        choose|id: ActorId| id.holds_u64(value)
    }

    /// Two identifiers built from the same number are the same identifier.
    pub proof fn lemma_holds_u64_unique(a: ActorId, b: ActorId, value: u64)
        requires
            a.holds_u64(value),
            b.holds_u64(value),
        ensures
            a == b,
    {
        assert(a.bytes =~= b.bytes);
    }
}

impl From<u64> for ActorId {
    fn from(value: u64) -> (id: ActorId)
        ensures
            id.holds_u64(value),
    {
        let mut bytes = [0u8; 32];
        let mut k: usize = 0;
        while k < 8
            invariant
                k <= 8,
                forall|i: int|
                    0 <= i < 32 ==> #[trigger] bytes[i] == (if 12 <= i < 12 + k {
                        ((value >> ((8 * (i - 12)) as u64)) & 0xffu64) as u8
                    } else {
                        0u8
                    }),
            decreases 8 - k,
        {
            let b: u8 = ((value >> (8 * (k as u64))) & 0xffu64) as u8;
            bytes[12 + k] = b;
            k = k + 1;
        }
        let id = ActorId { bytes };
        proof {
            assert(id.holds_u64(value));
            let c = ActorId::from_u64_spec(value);
            ActorId::lemma_holds_u64_unique(id, c, value);
        }
        id
    }
}

impl vstd::std_specs::convert::FromSpecImpl<u64> for ActorId {
    open spec fn obeys_from_spec() -> bool {
        true
    }

    open spec fn from_spec(value: u64) -> ActorId {
        ActorId::from_u64_spec(value)
    }
}

impl PartialEq for ActorId {
    fn eq(&self, other: &Self) -> (r: bool) {
        let mut i: usize = 0;
        while i < 32
            invariant
                i <= 32,
                forall|j: int| 0 <= j < i ==> self.bytes[j] == other.bytes[j],
            decreases 32 - i,
        {
            if self.bytes[i] != other.bytes[i] {
                return false;
            }
            i = i + 1;
        }
        assert(self.bytes =~= other.bytes);
        true
    }
}

impl vstd::std_specs::cmp::PartialEqSpecImpl for ActorId {
    open spec fn obeys_eq_spec() -> bool {
        true
    }

    open spec fn eq_spec(&self, other: &ActorId) -> bool {
        *self == *other
    }
}

impl Eq for ActorId {}

impl Default for ActorId {
    /// The zero identifier.
    fn default() -> (id: ActorId)
        ensures
            forall|i: int| 0 <= i < 32 ==> id.bytes[i] == 0u8,
    {
        ActorId::zero()
    }
}

} // verus!
