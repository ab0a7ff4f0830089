use vstd::prelude::*;

verus! {

/// The per-scanline background opacity mask: the set of x positions whose
/// background pixel is opaque. It is kept in a bit set of the bit_set
/// crate, which Verus does not look into; the methods below say what each
/// call does to the held set.
#[verifier::external_body]
pub struct LineMask {
    set: bit_set::BitSet,
}

/// The set of indices the mask holds.
pub uninterp spec fn mask_view(s: LineMask) -> Set<nat>;

impl LineMask {
    /// Relies on bit_set::BitSet::new: a fresh bit set holds nothing.
    #[verifier::external_body]
    pub fn new() -> (r: LineMask)
        ensures
            mask_view(r) == Set::<nat>::empty(),
    {
        LineMask { set: bit_set::BitSet::new() }
    }

    /// Relies on bit_set::BitSet::insert: afterwards the set holds the
    /// value and everything it held before.
    #[verifier::external_body]
    pub fn insert(&mut self, value: usize)
        ensures
            mask_view(*final(self)) == mask_view(*old(self)).insert(value as nat),
    {
        self.set.insert(value);
    }

    /// Relies on bit_set::BitSet::remove: afterwards the set holds
    /// everything it held before but the value.
    #[verifier::external_body]
    pub fn remove(&mut self, value: usize)
        ensures
            mask_view(*final(self)) == mask_view(*old(self)).remove(value as nat),
    {
        self.set.remove(value);
    }

    /// Relies on bit_set::BitSet::contains: whether the set holds the value.
    #[verifier::external_body]
    pub fn contains(&self, value: usize) -> (r: bool)
        ensures
            r == mask_view(*self).contains(value as nat),
    {
        self.set.contains(value)
    }
}

} // verus!
