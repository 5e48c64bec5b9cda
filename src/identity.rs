use vstd::prelude::*;

verus! {

broadcast use vstd::array::group_array_axioms;

/// An opaque 32-byte handle naming a wallet, a signer or a record address.
#[derive(Clone, Copy, Debug)]
pub struct Identity {
    pub bytes: [u8; 32],
}

impl Identity {
    pub fn new(bytes: [u8; 32]) -> (r: Identity)
        ensures
            r.bytes == bytes,
    {
        Identity { bytes }
    }

    pub open spec fn is_zero(self) -> bool {
        forall|i: int| 0 <= i < 32 ==> self.bytes[i] == 0
    }

    /// The all-zero handle, held by records that no one owns yet.
    pub fn zero() -> (r: Identity)
        ensures
            r.is_zero(),
    {
        Identity { bytes: vstd::array::array_fill_for_copy_types(0u8) }
    }
}

impl PartialEq for Identity {
    fn eq(&self, o: &Identity) -> (r: bool) {
        let mut i: usize = 0;
        while i < 32
            invariant
                0 <= i <= 32,
                forall|j: int| 0 <= j < i ==> self.bytes[j] == o.bytes[j],
            decreases 32 - i,
        {
            if self.bytes[i] != o.bytes[i] {
                return false;
            }
            i = i + 1;
        }
        assert(self.bytes =~= o.bytes);
        true
    }
}

impl Eq for Identity {}

impl vstd::std_specs::cmp::PartialEqSpecImpl for Identity {
    open spec fn obeys_eq_spec() -> bool {
        true
    }

    open spec fn eq_spec(&self, o: &Identity) -> bool {
        *self == *o
    }
}

/// Whether `list` holds `who`.
pub fn contains_identity(list: &Vec<Identity>, who: &Identity) -> (r: bool)
    ensures
        r == list@.contains(*who),
{
    let mut i: usize = 0;
    while i < list.len()
        invariant
            i <= list@.len(),
            forall|j: int| 0 <= j < i ==> list@[j] != *who,
        decreases list@.len() - i,
    {
        if list[i] == *who {
            assert(list@[i as int] == *who);
            return true;
        }
        i = i + 1;
    }
    false
}

/// Whether no identity occurs twice in `list`.
pub fn all_distinct(list: &Vec<Identity>) -> (r: bool)
    ensures
        r == list@.no_duplicates(),
{
    let mut i: usize = 0;
    while i < list.len()
        invariant
            i <= list@.len(),
            forall|a: int, b: int| 0 <= a < b < list@.len() && a < i ==> list@[a] != list@[b],
        decreases list@.len() - i,
    {
        let mut j: usize = i + 1;
        while j < list.len()
            invariant
                i < list@.len(),
                i + 1 <= j <= list@.len(),
                forall|a: int, b: int| 0 <= a < b < list@.len() && a < i ==> list@[a] != list@[b],
                forall|b: int| i < b < j ==> list@[i as int] != list@[b],
            decreases list@.len() - j,
        {
            if list[i] == list[j] {
                return false;
            }
            j = j + 1;
        }
        i = i + 1;
    }
    true
}

} // verus!
