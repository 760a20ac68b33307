use vstd::prelude::*;
use crate::consts::{
    PLIC_ACCESS_WIDTH, PLIC_CONTEXT_CLAIM_COMPLETE_OFFSET, PLIC_CONTEXT_CTRL_OFFSET,
    PLIC_CONTEXT_STRIDE, PLIC_PENDING_WORDS,
};
use crate::error::PlicError;
use crate::regmap::{classify, decode, Region};
use crate::store::{is_lowest, is_source, with_source, IrqStore};

verus! {

/// How the guest's external-interrupt-pending signal is to change.
#[derive(Clone, Copy, Debug, PartialEq, Eq, Structural)]
pub enum SignalChange {
    /// Leave the signal as it is.
    Unchanged,
    /// Raise the signal: an interrupt is waiting.
    Assert,
    /// Lower the signal: nothing is waiting.
    Deassert,
}

/// A write that the host controller must receive.
#[derive(Clone, Copy, Debug, PartialEq, Eq, Structural)]
pub struct HostWrite {
    /// Host physical address of the register.
    pub addr: usize,
    /// The value to store there.
    pub value: usize,
}

/// The answer to a guest read.
#[derive(Clone, Copy, Debug, PartialEq, Eq, Structural)]
pub enum ReadOutcome {
    /// The virtual controller produced the value itself.
    Value(u32),
    /// The value is that of the host register at this host physical address.
    HostRead(usize),
}

/// What a guest write asks of the world outside the virtual controller.
#[derive(Clone, Copy, Debug, PartialEq, Eq, Structural)]
pub struct WriteEffect {
    /// The change to the guest's interrupt-pending signal.
    pub signal: SignalChange,
    /// The write to forward to the host controller, if any.
    pub host_write: Option<HostWrite>,
}

/// Bit `i` of `v`.
pub open spec fn bit_of(v: u32, i: u32) -> bool {
    (v >> i) & 1u32 == 1u32
}

/// `v` is the pending word `w` of the set `pending`: bit `i` tells whether
/// source `32 * w + i` is pending.
pub open spec fn word_matches(v: u32, pending: Set<usize>, w: usize) -> bool {
    forall|i: u32| i < 32 ==> #[trigger] bit_of(v, i) == pending.contains((w * 32 + i) as usize)
}

/// The valid source ids that bits `0 .. upto` of `v`, written to pending word
/// `w`, name.
pub open spec fn injected(w: usize, v: u32, upto: u32) -> Set<usize> {
    Set::new(
        |id: usize|
            is_source(id) && w * 32 <= id && id < w * 32 + upto && bit_of(
                v,
                (id - w * 32) as u32,
            ),
    )
}

/// A claim that took `pending` and `active` to `pending2` and `active2` and
/// returned `x`: the lowest pending id moves to the active set, and 0 means
/// that nothing was pending.
pub open spec fn claim_step(
    pending: Set<usize>,
    active: Set<usize>,
    x: u32,
    pending2: Set<usize>,
    active2: Set<usize>,
) -> bool {
    if pending == Set::<usize>::empty() {
        x == 0 && pending2 == pending && active2 == active
    } else {
        is_lowest(pending, x as usize) && pending2 == pending.remove(x as usize) && active2
            == active.insert(x as usize)
    }
}

/// `o` is a value that matches pending word `w` of `pending`.
pub open spec fn value_matches(o: ReadOutcome, pending: Set<usize>, w: usize) -> bool {
    match o {
        ReadOutcome::Value(v) => word_matches(v, pending, w),
        ReadOutcome::HostRead(_) => false,
    }
}

/// `o` is the value of a claim that took `pending` and `active` to
/// `pending2` and `active2`.
pub open spec fn claimed(
    o: ReadOutcome,
    pending: Set<usize>,
    active: Set<usize>,
    pending2: Set<usize>,
    active2: Set<usize>,
) -> bool {
    match o {
        ReadOutcome::Value(x) => claim_step(pending, active, x, pending2, active2),
        ReadOutcome::HostRead(_) => false,
    }
}

/// The signal change after an injection that left `pending` behind.
pub open spec fn signal_after_inject(pending: Set<usize>) -> SignalChange {
    if pending == Set::<usize>::empty() {
        SignalChange::Unchanged
    } else {
        SignalChange::Assert
    }
}

/// The signal change of a completion made while `pending` was pending.
pub open spec fn signal_after_complete(pending: Set<usize>) -> SignalChange {
    if pending == Set::<usize>::empty() {
        SignalChange::Deassert
    } else {
        SignalChange::Unchanged
    }
}

/// The end of the last context's claim/complete register, relative to the base.
pub open spec fn control_end(contexts_num: usize) -> int {
    contexts_num * PLIC_CONTEXT_STRIDE + PLIC_CONTEXT_CTRL_OFFSET
        + PLIC_CONTEXT_CLAIM_COMPLETE_OFFSET
}

/// A window of `size` bytes at `addr` fits the address space and reaches past
/// every context's control registers.
pub open spec fn covers(addr: usize, size: usize, contexts_num: usize) -> bool {
    addr + size <= usize::MAX && size > control_end(contexts_num)
}

/// The virtual interrupt controller of one guest.
pub struct VPlicGlobal {
    /// Guest physical address of the register window.
    pub addr: usize,
    /// Size of the window in bytes.
    pub size: usize,
    /// Number of contexts.
    pub contexts_num: usize,
    /// The assigned, pending and active source sets.
    pub irqs: IrqStore,
    /// Host physical address of the real controller.
    pub host_plic_addr: usize,
}

impl VPlicGlobal {
    /// Sources signalled and not yet claimed.
    pub open spec fn pending(&self) -> Set<usize> {
        self.irqs.pending_set()
    }

    /// Sources claimed and not yet completed.
    pub open spec fn active(&self) -> Set<usize> {
        self.irqs.active_set()
    }

    /// The window covers every context, the host controller sits at the same
    /// address as the guest's, the source sets hold valid ids only, and no id
    /// is pending and active at once.
    pub open spec fn wf(&self) -> bool {
        &&& self.irqs.wf()
        &&& self.pending().disjoint(self.active())
        &&& self.host_plic_addr == self.addr
        &&& covers(self.addr, self.size, self.contexts_num)
    }

    /// Everything but the pending and active sets is as in `other`.
    pub open spec fn same_config(&self, other: &VPlicGlobal) -> bool {
        &&& self.addr == other.addr
        &&& self.size == other.size
        &&& self.contexts_num == other.contexts_num
        &&& self.host_plic_addr == other.host_plic_addr
        &&& self.irqs.assigned_set() == other.irqs.assigned_set()
    }

    /// The host register that mirrors the guest address `addr`.
    pub open spec fn host_address(&self, addr: usize) -> usize {
        (addr - self.addr + self.host_plic_addr) as usize
    }

    /// A controller at `addr` with `contexts_num` contexts and a window of
    /// `size` bytes, with every source idle. The window must be given and must
    /// reach past the last context's claim/complete register.
    pub fn new(addr: usize, size: Option<usize>, contexts_num: usize) -> (r: Result<
        VPlicGlobal,
        PlicError,
    >)
        ensures
            match size {
                Some(s) if covers(addr, s, contexts_num) => match r {
                    Ok(d) => {
                        &&& d.wf()
                        &&& d.addr == addr
                        &&& d.size == s
                        &&& d.contexts_num == contexts_num
                        &&& d.host_plic_addr == addr
                        &&& d.pending() == Set::<usize>::empty()
                        &&& d.active() == Set::<usize>::empty()
                        &&& d.irqs.assigned_set() == Set::<usize>::empty()
                    },
                    Err(_) => false,
                },
                _ => r == Err::<VPlicGlobal, PlicError>(PlicError::ConstructionRangeError),
            },
    {
        let size = match size {
            Some(s) => s,
            None => return Err(PlicError::ConstructionRangeError),
        };
        let end = match contexts_num.checked_mul(PLIC_CONTEXT_STRIDE) {
            Some(x) => x.checked_add(PLIC_CONTEXT_CTRL_OFFSET + PLIC_CONTEXT_CLAIM_COMPLETE_OFFSET),
            None => None,
        };
        let end = match end {
            Some(e) => e,
            None => return Err(PlicError::ConstructionRangeError),
        };
        if addr.checked_add(size).is_none() || size <= end {
            return Err(PlicError::ConstructionRangeError);
        }
        Ok(VPlicGlobal { addr, size, contexts_num, irqs: IrqStore::new(), host_plic_addr: addr })
    }

    /// Whether source `id` is pending.
    pub fn is_pending(&self, id: usize) -> (r: bool)
        requires
            self.wf(),
        ensures
            r == self.pending().contains(id),
    {
        self.irqs.is_pending(id)
    }

    /// Whether source `id` is active.
    pub fn is_active(&self, id: usize) -> (r: bool)
        requires
            self.wf(),
        ensures
            r == self.active().contains(id),
    {
        self.irqs.is_active(id)
    }

    /// Marks source `id` pending and takes it out of the active set, so that it
    /// is never both. The signal is raised, since something is then pending;
    /// an id that is no valid source changes nothing.
    pub fn inject(&mut self, id: usize) -> (r: SignalChange)
        requires
            old(self).wf(),
        ensures
            final(self).wf(),
            final(self).same_config(old(self)),
            final(self).pending() == with_source(old(self).pending(), id),
            final(self).active() == old(self).active().remove(id),
            r == signal_after_inject(final(self).pending()),
            is_source(id) ==> final(self).pending().contains(id) && !final(self).active().contains(id)
                && r == SignalChange::Assert,
    {
        self.irqs.set_pending(id, true);
        self.irqs.set_active(id, false);
        proof {
            if is_source(id) {
                assert(self.pending().contains(id));
            }
        }
        if self.irqs.pending_is_empty() {
            SignalChange::Unchanged
        } else {
            SignalChange::Assert
        }
    }

    /// Claims the lowest pending source: it leaves the pending set, joins the
    /// active set, and its id is returned; 0 when nothing is pending.
    ///
    /// The choice is made over the one pending set that all contexts share,
    /// by id alone: enable bits, priorities and thresholds are not consulted,
    /// and the claiming context does not matter.
    pub fn claim(&mut self) -> (r: u32)
        requires
            old(self).wf(),
        ensures
            final(self).wf(),
            final(self).same_config(old(self)),
            claim_step(old(self).pending(), old(self).active(), r, final(self).pending(), final(self).active()),
            (r == 0) == (old(self).pending() == Set::<usize>::empty()),
    {
        match self.irqs.lowest_pending_id() {
            None => 0,
            Some(id) => {
                self.irqs.set_pending(id, false);
                self.irqs.set_active(id, true);
                id as u32
            },
        }
    }

    /// Completes source `id`: it leaves the active set. The signal is lowered
    /// when nothing is pending.
    pub fn complete(&mut self, id: usize) -> (r: SignalChange)
        requires
            old(self).wf(),
        ensures
            final(self).wf(),
            final(self).same_config(old(self)),
            final(self).pending() == old(self).pending(),
            final(self).active() == old(self).active().remove(id),
            r == signal_after_complete(final(self).pending()),
    {
        let signal = if self.irqs.pending_is_empty() {
            SignalChange::Deassert
        } else {
            SignalChange::Unchanged
        };
        self.irqs.set_active(id, false);
        signal
    }

    /// Pending word `w`: bit `i` is set exactly when source `32 * w + i` is pending.
    pub fn read_pending_word(&self, w: usize) -> (r: u32)
        requires
            self.wf(),
            w < PLIC_PENDING_WORDS,
        ensures
            word_matches(r, self.pending(), w),
    {
        let mut val: u32 = 0;
        let mut i: u32 = 0;
        assert forall|j: u32| j < 32 implies !#[trigger] bit_of(val, j) by {
            lemma_zero_bits(j);
        }
        while i < 32
            invariant
                self.wf(),
                w < PLIC_PENDING_WORDS,
                i <= 32,
                forall|j: u32| j < i ==> #[trigger] bit_of(val, j) == self.pending().contains((w * 32 + j) as usize),
                forall|j: u32| i <= j < 32 ==> !#[trigger] bit_of(val, j),
            decreases 32 - i,
        {
            let id = w * 32 + i as usize;
            if self.irqs.is_pending(id) {
                let prev = val;
                val = val | (1u32 << i);
                assert forall|j: u32| j < 32 implies #[trigger] bit_of(val, j) == (j == i || bit_of(prev, j)) by {
                    lemma_set_bit(prev, i, j);
                }
            }
            i = i + 1;
        }
        val
    }

    /// Marks pending every valid source that a set bit of `v` names in pending
    /// word `w`, and takes those sources out of the active set; no pending
    /// bit is cleared. The signal is raised when something is
    /// then pending.
    pub fn write_pending_word(&mut self, w: usize, v: u32) -> (r: SignalChange)
        requires
            old(self).wf(),
            w < PLIC_PENDING_WORDS,
        ensures
            final(self).wf(),
            final(self).same_config(old(self)),
            final(self).pending() == old(self).pending().union(injected(w, v, 32)),
            final(self).active() == old(self).active().difference(injected(w, v, 32)),
            r == signal_after_inject(final(self).pending()),
    {
        let mut i: u32 = 0;
        assert(old(self).pending().union(injected(w, v, 0)) =~= old(self).pending());
        assert(old(self).active().difference(injected(w, v, 0)) =~= old(self).active());
        while i < 32
            invariant
                self.wf(),
                self.same_config(old(self)),
                w < PLIC_PENDING_WORDS,
                i <= 32,
                self.pending() == old(self).pending().union(injected(w, v, i)),
                self.active() == old(self).active().difference(injected(w, v, i)),
            decreases 32 - i,
        {
            let id = w * 32 + i as usize;
            if (v >> i) & 1u32 == 1u32 {
                self.irqs.set_pending(id, true);
                self.irqs.set_active(id, false);
            }
            assert(self.pending() =~= old(self).pending().union(injected(w, v, (i + 1) as u32)));
            assert(self.active() =~= old(self).active().difference(injected(w, v, (i + 1) as u32)));
            i = i + 1;
        }
        if self.irqs.pending_is_empty() {
            SignalChange::Unchanged
        } else {
            SignalChange::Assert
        }
    }

    /// The register that a `width`-byte access at guest address `addr` names,
    /// or the fault that refuses it.
    pub open spec fn access_region(&self, addr: usize, width: usize) -> Result<Region, PlicError> {
        if width != PLIC_ACCESS_WIDTH {
            Err(PlicError::InvalidWidth)
        } else if addr < self.addr {
            Err(PlicError::UnmappedRegister)
        } else {
            decode((addr - self.addr) as usize, self.contexts_num)
        }
    }

    /// A read of `region` at guest address `addr` took `self` to `after` and
    /// answered `o`.
    pub open spec fn read_served(
        &self,
        after: &VPlicGlobal,
        region: Region,
        addr: usize,
        o: ReadOutcome,
    ) -> bool {
        match region {
            Region::Pending(w) => *after == *self && value_matches(o, self.pending(), w),
            Region::ClaimComplete(_) => claimed(o, self.pending(), self.active(), after.pending(), after.active()),
            _ => *after == *self && o == ReadOutcome::HostRead(self.host_address(addr)),
        }
    }

    /// A write of `val` to `region` at guest address `addr` took `self` to
    /// `after` and asked for `e`.
    pub open spec fn write_served(
        &self,
        after: &VPlicGlobal,
        region: Region,
        addr: usize,
        val: usize,
        e: WriteEffect,
    ) -> bool {
        let forward = Some(HostWrite { addr: self.host_address(addr), value: val });
        match region {
            Region::Pending(w) => {
                &&& after.pending() == self.pending().union(injected(w, val as u32, 32))
                &&& after.active() == self.active().difference(injected(w, val as u32, 32))
                &&& e == (WriteEffect {
                    signal: signal_after_inject(after.pending()),
                    host_write: None,
                })
            },
            Region::ClaimComplete(_) => {
                &&& after.pending() == self.pending()
                &&& after.active() == self.active().remove(val)
                &&& e == (WriteEffect {
                    signal: signal_after_complete(self.pending()),
                    host_write: forward,
                })
            },
            _ => *after == *self && e == (WriteEffect {
                signal: SignalChange::Unchanged,
                host_write: forward,
            }),
        }
    }

    /// Serves a guest read of `width` bytes at guest address `addr`.
    ///
    /// Only four-byte accesses inside the register map are served. A pending
    /// word is produced from the pending set; a claim/complete register claims
    /// the lowest pending source; priority, enable and threshold registers are
    /// read from the host controller at the mirrored address. A refused access
    /// changes nothing.
    pub fn handle_read(&mut self, addr: usize, width: usize) -> (r: Result<ReadOutcome, PlicError>)
        requires
            old(self).wf(),
        ensures
            final(self).wf(),
            final(self).same_config(old(self)),
            match old(self).access_region(addr, width) {
                Err(e) => r == Err::<ReadOutcome, PlicError>(e) && *final(self) == *old(self),
                Ok(region) => r is Ok && old(self).read_served(final(self), region, addr, r->Ok_0),
            },
    {
        if width != PLIC_ACCESS_WIDTH {
            return Err(PlicError::InvalidWidth);
        }
        if addr < self.addr {
            return Err(PlicError::UnmappedRegister);
        }
        let reg = addr - self.addr;
        let host_addr = reg + self.host_plic_addr;
        match classify(reg, self.contexts_num) {
            Err(e) => Err(e),
            Ok(Region::Pending(w)) => Ok(ReadOutcome::Value(self.read_pending_word(w))),
            Ok(Region::ClaimComplete(_)) => Ok(ReadOutcome::Value(self.claim())),
            Ok(_) => Ok(ReadOutcome::HostRead(host_addr)),
        }
    }

    /// Serves a guest write of `val`, `width` bytes wide, at guest address `addr`.
    ///
    /// Only four-byte accesses inside the register map are served. A pending
    /// word write marks sources pending (the low 32 bits of `val` count); a
    /// claim/complete write completes source `val` and is forwarded to the
    /// host controller; priority, enable and threshold writes are forwarded
    /// unchanged to the mirrored host address. A refused access changes nothing.
    pub fn handle_write(&mut self, addr: usize, width: usize, val: usize) -> (r: Result<
        WriteEffect,
        PlicError,
    >)
        requires
            old(self).wf(),
        ensures
            final(self).wf(),
            final(self).same_config(old(self)),
            match old(self).access_region(addr, width) {
                Err(e) => r == Err::<WriteEffect, PlicError>(e) && *final(self) == *old(self),
                Ok(region) => r is Ok && old(self).write_served(
                    final(self),
                    region,
                    addr,
                    val,
                    r->Ok_0,
                ),
            },
    {
        if width != PLIC_ACCESS_WIDTH {
            return Err(PlicError::InvalidWidth);
        }
        if addr < self.addr {
            return Err(PlicError::UnmappedRegister);
        }
        let reg = addr - self.addr;
        let host_addr = reg + self.host_plic_addr;
        match classify(reg, self.contexts_num) {
            Err(e) => Err(e),
            Ok(Region::Pending(w)) => {
                let signal = self.write_pending_word(w, val as u32);
                Ok(WriteEffect { signal, host_write: None })
            },
            Ok(Region::ClaimComplete(_)) => {
                let signal = self.complete(val);
                Ok(WriteEffect { signal, host_write: Some(HostWrite { addr: host_addr, value: val }) })
            },
            Ok(_) => Ok(
                WriteEffect {
                    signal: SignalChange::Unchanged,
                    host_write: Some(HostWrite { addr: host_addr, value: val }),
                },
            ),
        }
    }
}

/// Setting bit `i` of `v` sets that bit and keeps every other.
proof fn lemma_set_bit(v: u32, i: u32, j: u32)
    by (bit_vector)
    requires
        i < 32,
        j < 32,
    ensures
        bit_of(v | (1u32 << i), j) == (j == i || bit_of(v, j)),
{
}

/// No bit of 0 is set.
proof fn lemma_zero_bits(j: u32)
    by (bit_vector)
    requires
        j < 32,
    ensures
        !bit_of(0u32, j),
{
}

} // verus!
