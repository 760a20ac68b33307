use vstd::prelude::*;
use bitmaps::Bitmap;

verus! {

/// A set of interrupt source ids in `0..1024`, kept in a `bitmaps::Bitmap<1024>`.
///
/// The bitmap is private; what the set holds is `irq_bits_of(self)`, and the
/// wrappers below state how each bitmap call changes or reads it.
#[verifier::external_body]
pub struct IrqBits {
    bits: Bitmap<1024>,
}

/// The ids whose bit is set.
pub uninterp spec fn irq_bits_of(b: IrqBits) -> Set<usize>;

impl IrqBits {
    /// Relies on `bitmaps::Bitmap::new`: every bit starts out `false`.
    #[verifier::external_body]
    pub(crate) fn new() -> (r: IrqBits)
        ensures
            irq_bits_of(r) == Set::<usize>::empty(),
    {
        IrqBits { bits: Bitmap::new() }
    }

    /// Relies on `bitmaps::Bitmap::get`: the bit at `index`; it indexes an
    /// array of eight `u128`, so `index` must be below 1024.
    #[verifier::external_body]
    pub(crate) fn get(&self, index: usize) -> (r: bool)
        requires
            index < 1024,
        ensures
            r == irq_bits_of(*self).contains(index),
    {
        self.bits.get(index)
    }

    /// Relies on `bitmaps::Bitmap::set`: only the bit at `index` changes, and
    /// `index` must be below 1024.
    #[verifier::external_body]
    pub(crate) fn set(&mut self, index: usize, value: bool)
        requires
            index < 1024,
        ensures
            irq_bits_of(*final(self)) == (if value {
                irq_bits_of(*old(self)).insert(index)
            } else {
                irq_bits_of(*old(self)).remove(index)
            }),
    {
        self.bits.set(index, value);
    }

    /// Relies on `bitmaps::Bitmap::first_index`: the lowest set bit, or `None`
    /// when no bit is set.
    #[verifier::external_body]
    pub(crate) fn first_index(&self) -> (r: Option<usize>)
        ensures
            match r {
                None => irq_bits_of(*self) == Set::<usize>::empty(),
                Some(i) => irq_bits_of(*self).contains(i) && forall|j: usize|
                    #[trigger] irq_bits_of(*self).contains(j) ==> i <= j,
            },
    {
        self.bits.first_index()
    }
}

} // verus!
