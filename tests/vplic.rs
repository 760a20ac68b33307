use riscv_vplic::consts::{
    PLIC_CONTEXT_CLAIM_COMPLETE_OFFSET, PLIC_CONTEXT_CTRL_OFFSET, PLIC_CONTEXT_STRIDE,
    PLIC_ENABLE_OFFSET, PLIC_ENABLE_STRIDE, PLIC_PENDING_OFFSET,
};
use riscv_vplic::device::{HostWrite, ReadOutcome, SignalChange, VPlicGlobal, WriteEffect};
use riscv_vplic::store::IrqStore;
use riscv_vplic::{classify, PlicError, Region};

const BASE: usize = 0x0c00_0000;
const SIZE: usize = 0x400_0000;
const CONTEXTS: usize = 2;

fn device() -> VPlicGlobal {
    VPlicGlobal::new(BASE, Some(SIZE), CONTEXTS).unwrap()
}

fn claim_reg(ctx: usize) -> usize {
    BASE + PLIC_CONTEXT_CTRL_OFFSET + ctx * PLIC_CONTEXT_STRIDE + PLIC_CONTEXT_CLAIM_COMPLETE_OFFSET
}

fn pending_reg(word: usize) -> usize {
    BASE + PLIC_PENDING_OFFSET + 4 * word
}

#[test]
fn new_sets_fields_and_starts_idle() {
    let d = device();
    assert_eq!(d.addr, BASE);
    assert_eq!(d.size, SIZE);
    assert_eq!(d.contexts_num, CONTEXTS);
    assert_eq!(d.host_plic_addr, BASE);
    for id in 0..1024 {
        assert!(!d.is_pending(id));
        assert!(!d.is_active(id));
    }
}

#[test]
fn new_without_size_fails() {
    assert!(matches!(
        VPlicGlobal::new(BASE, None, CONTEXTS),
        Err(PlicError::ConstructionRangeError)
    ));
}

#[test]
fn new_with_window_too_small_fails() {
    // The window must reach past 0x200000 + 2 * 0x1000 + 4 = 0x202004.
    assert!(matches!(
        VPlicGlobal::new(BASE, Some(0x202004), CONTEXTS),
        Err(PlicError::ConstructionRangeError)
    ));
    assert!(VPlicGlobal::new(BASE, Some(0x202005), CONTEXTS).is_ok());
}

#[test]
fn new_with_window_past_address_space_fails() {
    assert!(matches!(
        VPlicGlobal::new(usize::MAX - 0x100, Some(SIZE), CONTEXTS),
        Err(PlicError::ConstructionRangeError)
    ));
    assert!(matches!(
        VPlicGlobal::new(BASE, Some(SIZE), usize::MAX / 2),
        Err(PlicError::ConstructionRangeError)
    ));
}

#[test]
fn classify_each_region() {
    assert_eq!(classify(0x0, 2), Ok(Region::Priority(0)));
    assert_eq!(classify(0x28, 2), Ok(Region::Priority(10)));
    assert_eq!(classify(0x1000, 2), Ok(Region::Pending(0)));
    assert_eq!(classify(0x1008, 2), Ok(Region::Pending(2)));
    assert_eq!(classify(PLIC_ENABLE_OFFSET + PLIC_ENABLE_STRIDE + 4, 2), Ok(Region::Enable(1)));
    assert_eq!(classify(0x201000, 2), Ok(Region::Threshold(1)));
    assert_eq!(classify(0x200004, 2), Ok(Region::ClaimComplete(0)));
    assert_eq!(classify(0x201004, 2), Ok(Region::ClaimComplete(1)));
}

#[test]
fn classify_refuses_bad_context_and_unmapped() {
    assert_eq!(classify(0x202004, 2), Err(PlicError::InvalidContext));
    assert_eq!(classify(0x202000, 2), Err(PlicError::InvalidContext));
    assert_eq!(classify(PLIC_ENABLE_OFFSET + 2 * PLIC_ENABLE_STRIDE, 2), Err(PlicError::InvalidContext));
    assert_eq!(classify(0x200008, 2), Err(PlicError::UnmappedRegister));
    assert_eq!(classify(0x200ffc, 2), Err(PlicError::UnmappedRegister));
}

#[test]
fn inject_marks_pending_and_asserts() {
    for n in [1usize, 5, 31, 32, 500, 1023] {
        let mut d = device();
        assert_eq!(d.inject(n), SignalChange::Assert);
        assert!(d.is_pending(n));
        assert!(!d.is_active(n));
    }
}

#[test]
fn inject_of_active_id_takes_it_out_of_active() {
    let mut d = VPlicGlobal::new(BASE, Some(SIZE), 1).unwrap();
    d.handle_write(pending_reg(0), 4, 0x20).unwrap();
    assert_eq!(d.handle_read(claim_reg(0), 4), Ok(ReadOutcome::Value(5)));
    assert!(d.is_active(5));
    d.handle_write(pending_reg(0), 4, 0x20).unwrap();
    assert!(d.is_pending(5));
    assert!(!d.is_active(5));
    assert_eq!(d.claim(), 5);
    assert_eq!(d.inject(5), SignalChange::Assert);
    assert!(d.is_pending(5));
    assert!(!d.is_active(5));
}

#[test]
fn inject_ignores_reserved_and_out_of_range_ids() {
    let mut d = device();
    assert_eq!(d.inject(0), SignalChange::Unchanged);
    assert_eq!(d.inject(1024), SignalChange::Unchanged);
    assert!(!d.is_pending(0));
    assert_eq!(d.claim(), 0);
}

#[test]
fn claim_returns_lowest_pending() {
    let mut d = device();
    d.inject(40);
    d.inject(7);
    d.inject(300);
    assert_eq!(d.claim(), 7);
    assert!(!d.is_pending(7));
    assert!(d.is_active(7));
    assert_eq!(d.claim(), 40);
    assert_eq!(d.claim(), 300);
    assert_eq!(d.claim(), 0);
}

#[test]
fn claim_on_empty_returns_zero_and_changes_nothing() {
    let mut d = device();
    assert_eq!(d.claim(), 0);
    for id in 0..1024 {
        assert!(!d.is_active(id));
    }
}

#[test]
fn complete_deasserts_only_when_nothing_pending() {
    let mut d = device();
    d.inject(3);
    d.inject(9);
    assert_eq!(d.claim(), 3);
    assert_eq!(d.complete(3), SignalChange::Unchanged);
    assert!(!d.is_active(3));
    assert_eq!(d.claim(), 9);
    assert_eq!(d.complete(9), SignalChange::Deassert);
    assert!(!d.is_active(9));
}

#[test]
fn complete_of_out_of_range_id_changes_nothing() {
    let mut d = device();
    d.inject(4);
    assert_eq!(d.claim(), 4);
    assert_eq!(d.complete(5000), SignalChange::Deassert);
    assert!(d.is_active(4));
}

#[test]
fn reuse_after_complete() {
    let mut d = device();
    d.inject(5);
    assert_eq!(d.claim(), 5);
    d.complete(5);
    d.inject(5);
    assert_eq!(d.claim(), 5);
}

#[test]
fn two_injections_claimed_once_each() {
    for (a, b) in [(12usize, 8usize), (8, 12), (1, 1023)] {
        let mut d = device();
        d.inject(a);
        d.inject(b);
        let x = d.claim() as usize;
        let y = d.claim() as usize;
        assert_ne!(x, y);
        let mut got = [x, y];
        got.sort();
        let mut want = [a, b];
        want.sort();
        assert_eq!(got, want);
        assert_eq!(d.claim(), 0);
    }
}

#[test]
fn narrow_write_to_claim_register_is_refused() {
    let mut d = device();
    d.inject(6);
    assert_eq!(d.claim(), 6);
    assert_eq!(d.handle_write(claim_reg(0), 2, 6), Err(PlicError::InvalidWidth));
    assert!(d.is_active(6));
    assert_eq!(d.handle_write(pending_reg(0), 2, 0x10), Err(PlicError::InvalidWidth));
    assert!(!d.is_pending(4));
}

#[test]
fn read_of_claim_register_past_last_context_is_refused() {
    let mut d = device();
    d.inject(6);
    assert_eq!(d.handle_read(claim_reg(CONTEXTS), 4), Err(PlicError::InvalidContext));
    assert!(d.is_pending(6));
}

#[test]
fn narrow_read_is_refused() {
    let mut d = device();
    assert_eq!(d.handle_read(claim_reg(0), 8), Err(PlicError::InvalidWidth));
    assert_eq!(d.handle_read(BASE, 1), Err(PlicError::InvalidWidth));
}

#[test]
fn access_below_window_is_unmapped() {
    let mut d = device();
    assert_eq!(d.handle_read(BASE - 4, 4), Err(PlicError::UnmappedRegister));
    assert_eq!(d.handle_write(BASE - 4, 4, 1), Err(PlicError::UnmappedRegister));
    assert_eq!(d.handle_read(BASE + 0x200008, 4), Err(PlicError::UnmappedRegister));
}

#[test]
fn pending_word_read_reflects_pending_set() {
    let mut d = device();
    for id in [1usize, 2, 31, 33, 63, 64, 1023] {
        d.inject(id);
    }
    assert_eq!(d.read_pending_word(0), 0x8000_0006);
    assert_eq!(d.read_pending_word(1), 0x8000_0002);
    assert_eq!(d.read_pending_word(2), 0x0000_0001);
    assert_eq!(d.read_pending_word(31), 0x8000_0000);
    assert_eq!(d.read_pending_word(32), 0);
    assert_eq!(d.handle_read(pending_reg(1), 4), Ok(ReadOutcome::Value(0x8000_0002)));
    for w in 0..40usize {
        let v = d.read_pending_word(w);
        for i in 0..32usize {
            assert_eq!((v >> i) & 1 == 1, d.is_pending(w * 32 + i));
        }
    }
}

#[test]
fn pending_word_read_does_not_claim() {
    let mut d = device();
    d.inject(2);
    assert_eq!(d.handle_read(pending_reg(0), 4), Ok(ReadOutcome::Value(0b100)));
    assert!(d.is_pending(2));
    assert!(!d.is_active(2));
}

#[test]
fn pending_word_write_injects_and_asserts() {
    let mut d = device();
    let e = d.handle_write(pending_reg(1), 4, 0x8000_0001);
    assert_eq!(e, Ok(WriteEffect { signal: SignalChange::Assert, host_write: None }));
    assert!(d.is_pending(32));
    assert!(d.is_pending(63));
    assert!(!d.is_pending(33));
    // Additive: a later write of zero clears nothing.
    let e = d.handle_write(pending_reg(1), 4, 0);
    assert_eq!(e, Ok(WriteEffect { signal: SignalChange::Assert, host_write: None }));
    assert!(d.is_pending(32));
}

#[test]
fn pending_word_write_skips_reserved_id_zero() {
    let mut d = device();
    let e = d.handle_write(pending_reg(0), 4, 1);
    assert_eq!(e, Ok(WriteEffect { signal: SignalChange::Unchanged, host_write: None }));
    assert!(!d.is_pending(0));
    assert_eq!(d.write_pending_word(40, 0xffff_ffff), SignalChange::Unchanged);
    assert_eq!(d.claim(), 0);
}

#[test]
fn pending_word_write_uses_low_32_bits() {
    let mut d = device();
    let e = d.handle_write(pending_reg(0), 4, (1usize << 40) | 0b1000);
    assert_eq!(e, Ok(WriteEffect { signal: SignalChange::Assert, host_write: None }));
    assert_eq!(d.read_pending_word(0), 0b1000);
}

#[test]
fn claim_register_read_claims() {
    let mut d = device();
    d.handle_write(pending_reg(0), 4, 0b1010_0000).unwrap();
    assert_eq!(d.handle_read(claim_reg(1), 4), Ok(ReadOutcome::Value(5)));
    assert!(d.is_active(5));
    assert!(!d.is_pending(5));
    assert_eq!(d.handle_read(claim_reg(0), 4), Ok(ReadOutcome::Value(7)));
    assert_eq!(d.handle_read(claim_reg(0), 4), Ok(ReadOutcome::Value(0)));
}

#[test]
fn claim_register_write_completes_and_forwards() {
    let mut d = device();
    d.inject(5);
    assert_eq!(d.handle_read(claim_reg(0), 4), Ok(ReadOutcome::Value(5)));
    let e = d.handle_write(claim_reg(0), 4, 5);
    assert_eq!(
        e,
        Ok(WriteEffect {
            signal: SignalChange::Deassert,
            host_write: Some(HostWrite { addr: claim_reg(0), value: 5 }),
        })
    );
    assert!(!d.is_active(5));
}

#[test]
fn claim_register_write_keeps_signal_while_pending() {
    let mut d = device();
    d.inject(5);
    d.inject(6);
    assert_eq!(d.claim(), 5);
    let e = d.handle_write(claim_reg(1), 4, 5);
    assert_eq!(
        e,
        Ok(WriteEffect {
            signal: SignalChange::Unchanged,
            host_write: Some(HostWrite { addr: claim_reg(1), value: 5 }),
        })
    );
}

#[test]
fn passthrough_registers_go_to_host() {
    let mut d = device();
    let prio = BASE + 4 * 10;
    let enable = BASE + PLIC_ENABLE_OFFSET + PLIC_ENABLE_STRIDE;
    let threshold = BASE + PLIC_CONTEXT_CTRL_OFFSET + PLIC_CONTEXT_STRIDE;
    for reg in [prio, enable, threshold] {
        assert_eq!(d.handle_read(reg, 4), Ok(ReadOutcome::HostRead(reg)));
        assert_eq!(
            d.handle_write(reg, 4, 0x7),
            Ok(WriteEffect {
                signal: SignalChange::Unchanged,
                host_write: Some(HostWrite { addr: reg, value: 0x7 }),
            })
        );
    }
    assert_eq!(d.claim(), 0);
}

#[test]
fn enable_of_missing_context_is_refused() {
    let mut d = device();
    let enable = BASE + PLIC_ENABLE_OFFSET + CONTEXTS * PLIC_ENABLE_STRIDE;
    assert_eq!(d.handle_read(enable, 4), Err(PlicError::InvalidContext));
    assert_eq!(d.handle_write(enable, 4, 1), Err(PlicError::InvalidContext));
}

#[test]
fn store_operations() {
    let mut s = IrqStore::new();
    assert!(s.pending_is_empty());
    s.set_pending(900, true);
    s.set_pending(9, true);
    s.set_pending(4, true);
    s.set_pending(0, true);
    assert!(!s.pending_is_empty());
    assert_eq!(s.lowest_pending_id(), Some(4));
    assert!(s.is_pending(9));
    assert!(!s.is_pending(0));
    s.set_active(4, true);
    assert!(s.is_active(4));
    s.set_active(4, false);
    assert!(!s.is_active(4));
    s.set_pending(4, false);
    assert_eq!(s.lowest_pending_id(), Some(9));
    s.set_pending(9, false);
    assert_eq!(s.lowest_pending_id(), Some(900));
    s.set_pending(900, false);
    assert!(s.pending_is_empty());
    assert_eq!(s.lowest_pending_id(), None);
}
