use vstd::prelude::*;

verus! {

/// A 32-byte account identity: a user, a token mint, a vault or a config.
#[derive(Clone, Copy, Debug)]
pub struct Key {
    pub bytes: [u8; 32],
}

impl Key {
    pub fn new(bytes: [u8; 32]) -> (r: Key)
        ensures
            r.bytes == bytes,
    {
        Key { bytes }
    }

    /// Whether two identities are the same, byte for byte.
    pub fn same(&self, other: &Key) -> (r: bool)
        ensures
            r == (self.bytes == other.bytes),
    {
        let mut i: usize = 0;
        while i < 32
            invariant
                0 <= i <= 32,
                forall|j: int| 0 <= j < i ==> self.bytes[j] == other.bytes[j],
            decreases 32 - i,
        {
            if self.bytes[i] != other.bytes[i] {
                return false;
            }
            i = i + 1;
        }
        assert(self.bytes =~= other.bytes);
        true
    }
}

impl PartialEq for Key {
    fn eq(&self, other: &Key) -> (r: bool) {
        self.same(other)
    }
}

impl vstd::std_specs::cmp::PartialEqSpecImpl for Key {
    open spec fn obeys_eq_spec() -> bool {
        true
    }

    open spec fn eq_spec(&self, other: &Key) -> bool {
        self.bytes == other.bytes
    }
}

impl Eq for Key {}

} // verus!
