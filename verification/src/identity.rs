//! Identity keys: the 32-byte values that name owners, registries, programs
//! and derived authorities.

use vstd::prelude::*;

verus! {

/// A 32-byte identity key.
#[derive(Clone, Copy, Debug, PartialEq, Eq)]
pub struct Identity {
    pub bytes: [u8; 32],
}

impl View for Identity {
    type V = Seq<u8>;

    /// An identity is its 32 bytes, in order.
    open spec fn view(&self) -> Seq<u8> {
        self.bytes@
    }
}

impl Identity {
    /// The identity made of the given bytes.
    pub fn new(bytes: [u8; 32]) -> (id: Identity)
        ensures
            id.bytes == bytes,
            id@ == bytes@,
    {
        Identity { bytes }
    }

    /// Whether two identities are the same key, byte for byte.
    pub fn same(&self, other: &Identity) -> (b: bool)
        ensures
            b == (self@ == other@),
    {
        let mut i: usize = 0;
        while i < 32
            invariant
                i <= 32,
                forall|j: int| 0 <= j < i ==> self.bytes@[j] == other.bytes@[j],
            decreases 32 - i,
        {
            if self.bytes[i] != other.bytes[i] {
                assert(self.bytes@[i as int] != other.bytes@[i as int]);
                return false;
            }
            i += 1;
        }
        assert(self.bytes@ =~= other.bytes@);
        true
    }
}

/// Whether `key` occurs among `ids`.
pub open spec fn contains_key(ids: Seq<Identity>, key: Seq<u8>) -> bool {
    exists|i: int| 0 <= i < ids.len() && ids[i]@ == key
}

/// Whether `i` is the first position of `key` among `ids`.
pub open spec fn is_position(ids: Seq<Identity>, key: Seq<u8>, i: int) -> bool {
    &&& 0 <= i < ids.len()
    &&& ids[i]@ == key
    &&& forall|j: int| 0 <= j < i ==> ids[j]@ != key
}

/// Whether no key occurs at two positions of `ids`.
pub open spec fn distinct(ids: Seq<Identity>) -> bool {
    forall|i: int, j: int| 0 <= i < j < ids.len() ==> ids[i]@ != ids[j]@
}

/// The first position of `who` among `ids`, if it occurs there.
pub fn find(ids: &Vec<Identity>, who: &Identity) -> (found: Option<usize>)
    ensures
        found.is_some() == contains_key(ids@, who@),
        found matches Some(i) ==> is_position(ids@, who@, i as int),
{
    let mut i: usize = 0;
    while i < ids.len()
        invariant
            i <= ids.len(),
            forall|j: int| 0 <= j < i ==> ids@[j]@ != who@,
        decreases ids.len() - i,
    {
        if ids[i].same(who) {
            return Some(i);
        }
        i += 1;
    }
    None
}

/// Whether every key of `ids` occurs there once only.
pub fn all_distinct(ids: &Vec<Identity>) -> (ok: bool)
    ensures
        ok == distinct(ids@),
{
    let mut j: usize = 0;
    while j < ids.len()
        invariant
            j <= ids.len(),
            forall|a: int, b: int| 0 <= a < b < j ==> ids@[a]@ != ids@[b]@,
        decreases ids.len() - j,
    {
        let mut i: usize = 0;
        while i < j
            invariant
                i <= j < ids.len(),
                forall|a: int| 0 <= a < i ==> ids@[a]@ != ids@[j as int]@,
            decreases j - i,
        {
            if ids[i].same(&ids[j]) {
                return false;
            }
            i += 1;
        }
        j += 1;
    }
    true
}

} // verus!
