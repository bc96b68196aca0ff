use host_emulation::interrupt::{Interrupt, LowerHalf, INTERRUPT_WIRE_BYTES};
use host_emulation::EmulationError;

#[test]
fn heap_ordering() {
    // S6: pushes [3, 9, 1, 7] pop as [9, 7, 3, 1]
    let mut lower = LowerHalf::new();
    for source in [3u32, 9, 1, 7] {
        lower.push_pending(Interrupt::new(source));
    }
    let mut popped = Vec::new();
    while let Some(i) = lower.next_pending() {
        popped.push(i.source());
    }
    assert_eq!(popped, vec![9, 7, 3, 1]);
}

#[test]
fn pop_returns_maximum_still_present() {
    let mut lower = LowerHalf::new();
    lower.push_pending(Interrupt::new(5));
    lower.push_pending(Interrupt::new(5));
    lower.push_pending(Interrupt::new(2));
    assert_eq!(lower.next_pending().unwrap().source(), 5);
    assert_eq!(lower.next_pending().unwrap().source(), 5);
    assert_eq!(lower.next_pending().unwrap().source(), 2);
    assert!(lower.next_pending().is_none());
}

#[test]
fn has_pending_reports_queue_state() {
    let mut lower = LowerHalf::new();
    assert!(!lower.has_pending_interrupts());
    lower.push_pending(Interrupt::new(7));
    assert!(lower.has_pending_interrupts());
    let got = lower.next_pending().unwrap();
    assert_eq!(got, Interrupt::new(7));
    assert!(!lower.has_pending_interrupts());
}

#[test]
fn interrupt_wire_roundtrip() {
    let i = Interrupt::new(0xA1B2C3D4);
    let b = i.encode();
    assert_eq!(b.len(), INTERRUPT_WIRE_BYTES);
    assert_eq!(b, vec![0xD4, 0xC3, 0xB2, 0xA1]);
    let d = Interrupt::decode(&b).unwrap();
    assert_eq!(d, i);
    assert_eq!(d.encode(), b);
}

#[test]
fn interrupt_decode_rejects_wrong_size() {
    match Interrupt::decode(&[1, 2, 3]) {
        Err(EmulationError::Custom(_)) => {},
        other => panic!("expected Custom error, got {:?}", other),
    }
}
