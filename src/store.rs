use vstd::prelude::*;
use crate::consts::PLIC_NUM_SOURCES;
use crate::irq_bits::{irq_bits_of, IrqBits};

verus! {

/// A valid interrupt source id: 1 to 1023, since 0 is reserved.
pub open spec fn is_source(id: usize) -> bool {
    1 <= id && id < PLIC_NUM_SOURCES
}

/// Every member of `s` is a valid source id.
pub open spec fn only_sources(s: Set<usize>) -> bool {
    forall|id: usize| #[trigger] s.contains(id) ==> is_source(id)
}

/// `x` is the numerically smallest member of `s`.
pub open spec fn is_lowest(s: Set<usize>, x: usize) -> bool {
    s.contains(x) && forall|y: usize| #[trigger] s.contains(y) ==> x <= y
}

/// `s` after marking `id`, when `id` is a valid source id.
pub open spec fn with_source(s: Set<usize>, id: usize) -> Set<usize> {
    if is_source(id) {
        s.insert(id)
    } else {
        s
    }
}

/// The assigned, pending and active sets of interrupt source ids.
pub struct IrqStore {
    assigned: IrqBits,
    pending: IrqBits,
    active: IrqBits,
}

impl IrqStore {
    /// Sources reserved for this controller.
    pub closed spec fn assigned_set(&self) -> Set<usize> {
        irq_bits_of(self.assigned)
    }

    /// Sources signalled and not yet claimed.
    pub closed spec fn pending_set(&self) -> Set<usize> {
        irq_bits_of(self.pending)
    }

    /// Sources claimed and not yet completed.
    pub closed spec fn active_set(&self) -> Set<usize> {
        irq_bits_of(self.active)
    }

    /// No set holds the reserved id 0 or an id past the last source.
    pub open spec fn wf(&self) -> bool {
        &&& only_sources(self.assigned_set())
        &&& only_sources(self.pending_set())
        &&& only_sources(self.active_set())
    }

    /// A store with all three sets empty.
    pub fn new() -> (r: IrqStore)
        ensures
            r.wf(),
            r.assigned_set() == Set::<usize>::empty(),
            r.pending_set() == Set::<usize>::empty(),
            r.active_set() == Set::<usize>::empty(),
    {
        IrqStore { assigned: IrqBits::new(), pending: IrqBits::new(), active: IrqBits::new() }
    }

    /// Whether `id` is pending.
    pub fn is_pending(&self, id: usize) -> (r: bool)
        requires
            self.wf(),
        ensures
            r == self.pending_set().contains(id),
    {
        if is_source_id(id) {
            self.pending.get(id)
        } else {
            false
        }
    }

    /// Whether `id` is active.
    pub fn is_active(&self, id: usize) -> (r: bool)
        requires
            self.wf(),
        ensures
            r == self.active_set().contains(id),
    {
        if is_source_id(id) {
            self.active.get(id)
        } else {
            false
        }
    }

    /// Marks or clears `id` as pending; an id that is no valid source is left alone.
    pub fn set_pending(&mut self, id: usize, value: bool)
        requires
            old(self).wf(),
        ensures
            final(self).wf(),
            final(self).pending_set() == (if value {
                with_source(old(self).pending_set(), id)
            } else {
                old(self).pending_set().remove(id)
            }),
            final(self).active_set() == old(self).active_set(),
            final(self).assigned_set() == old(self).assigned_set(),
    {
        if is_source_id(id) {
            self.pending.set(id, value);
        } else {
            assert(old(self).pending_set().remove(id) =~= old(self).pending_set());
        }
    }

    /// Marks or clears `id` as active; an id that is no valid source is left alone.
    pub fn set_active(&mut self, id: usize, value: bool)
        requires
            old(self).wf(),
        ensures
            final(self).wf(),
            final(self).active_set() == (if value {
                with_source(old(self).active_set(), id)
            } else {
                old(self).active_set().remove(id)
            }),
            final(self).pending_set() == old(self).pending_set(),
            final(self).assigned_set() == old(self).assigned_set(),
    {
        if is_source_id(id) {
            self.active.set(id, value);
        } else {
            assert(old(self).active_set().remove(id) =~= old(self).active_set());
        }
    }

    /// The numerically smallest pending id, or `None` when nothing is pending.
    pub fn lowest_pending_id(&self) -> (r: Option<usize>)
        requires
            self.wf(),
        ensures
            match r {
                None => self.pending_set() == Set::<usize>::empty(),
                Some(id) => is_lowest(self.pending_set(), id) && is_source(id),
            },
    {
        self.pending.first_index()
    }

    /// Whether nothing is pending.
    pub fn pending_is_empty(&self) -> (r: bool)
        requires
            self.wf(),
        ensures
            r == (self.pending_set() == Set::<usize>::empty()),
    {
        self.pending.first_index().is_none()
    }
}

/// Whether `id` is a valid source id.
pub fn is_source_id(id: usize) -> (r: bool)
    ensures
        r == is_source(id),
{
    1 <= id && id < PLIC_NUM_SOURCES
}

} // verus!
