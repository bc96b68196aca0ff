use host_emulation::process::{AllowSlice, OutboundFrame, UnixProcess};
use host_emulation::wire::{AllowedRegionPreamble, KernelReturn};
use host_emulation::EmulationError;

fn fresh_process() -> UnixProcess {
    UnixProcess::new("/bin/app".to_string(), "Sample Process".to_string(), 0)
}

#[test]
fn new_process_is_unstarted() {
    let p = fresh_process();
    assert!(!p.was_started());
    assert_eq!(p.get_id(), 0);
    assert_eq!(p.path(), "/bin/app");
}

#[test]
fn mark_started_guards_double_spawn() {
    let mut p = fresh_process();
    assert!(!p.was_started());
    p.mark_started();
    assert!(p.was_started());
}

#[test]
fn allow_null_address_inserts_nothing() {
    let mut p = fresh_process();
    let kern = p.allow(0, 16);
    assert_eq!(kern, 0);
    // the allow-map stayed empty: the request list is just the terminator
    let preambles = p.inbound_preambles();
    assert_eq!(preambles, vec![AllowedRegionPreamble::new_null()]);
}

#[test]
fn allow_returns_fresh_nonnull_handle() {
    let mut p = fresh_process();
    let k1 = p.allow(0xDEADBEEF, 16);
    let k2 = p.allow(0xFEEDFACE, 8);
    assert_ne!(k1, 0);
    assert_ne!(k2, 0);
    assert_ne!(k1, k2);
    let preambles = p.inbound_preambles();
    assert_eq!(
        preambles,
        vec![
            AllowedRegionPreamble::new(0xDEADBEEF, 16),
            AllowedRegionPreamble::new(0xFEEDFACE, 8),
            AllowedRegionPreamble::new_null(),
        ]
    );
}

#[test]
fn reallow_replaces_entry_in_place() {
    let mut p = fresh_process();
    p.allow(0xDEADBEEF, 16);
    p.allow(0xFEEDFACE, 8);
    let k3 = p.allow(0xDEADBEEF, 32);
    assert_ne!(k3, 0);
    let preambles = p.inbound_preambles();
    // same key keeps its position, with the new length
    assert_eq!(
        preambles,
        vec![
            AllowedRegionPreamble::new(0xDEADBEEF, 32),
            AllowedRegionPreamble::new(0xFEEDFACE, 8),
            AllowedRegionPreamble::new_null(),
        ]
    );
}

#[test]
fn first_unyield_sends_nothing_before_the_syscall() {
    // S1: on the first switch no kernel return is shipped
    let mut p = fresh_process();
    let frames = p.begin_unyield(None);
    assert!(frames.is_empty());
    // and the inbound exchange emits exactly one null preamble
    let preambles = p.inbound_preambles();
    assert_eq!(preambles, vec![AllowedRegionPreamble::new_null()]);
}

#[test]
fn unyield_outbound_with_empty_map_is_return_then_terminator() {
    let mut p = fresh_process();
    let ret = KernelReturn::new_ret(42);
    let frames = p.begin_unyield(Some(ret));
    assert_eq!(
        frames,
        vec![
            OutboundFrame::Return(ret),
            OutboundFrame::Preamble(AllowedRegionPreamble::new_null()),
        ]
    );
}

#[test]
fn invalid_regions_are_never_shipped_back() {
    let mut p = fresh_process();
    p.allow(0xDEADBEEF, 4);
    // the region was never received from the app, so it is skipped entirely
    let frames = p.begin_unyield(Some(KernelReturn::new_ret(0)));
    assert_eq!(
        frames,
        vec![
            OutboundFrame::Return(KernelReturn::new_ret(0)),
            OutboundFrame::Preamble(AllowedRegionPreamble::new_null()),
        ]
    );
}

#[test]
fn allow_then_populate_then_ship() {
    // S2 at the exchange level: ALLOW{addr=0xDEADBEEF, size=16}, then the
    // next cycle's inbound list populates the region.
    let mut p = fresh_process();
    p.allow(0xDEADBEEF, 16);

    // inbound phase: the kernel requests the region and stores the payload
    let preambles = p.inbound_preambles();
    assert_eq!(preambles.len(), 2);
    let payload: Vec<u8> = (0..16).collect();
    let frames = p.begin_unyield(None);
    assert!(frames.is_empty());
    p.accept_region_payload(0, payload.clone()).unwrap();
    p.complete_unyield();

    // the region is now valid and shipped on the next outbound phase
    let frames = p.begin_unyield(Some(KernelReturn::new_ret(0)));
    assert_eq!(
        frames,
        vec![
            OutboundFrame::Return(KernelReturn::new_ret(0)),
            OutboundFrame::Preamble(AllowedRegionPreamble::new(0xDEADBEEF, 16)),
            OutboundFrame::Payload(payload),
            OutboundFrame::Preamble(AllowedRegionPreamble::new_null()),
        ]
    );
}

#[test]
fn accept_region_payload_rejects_wrong_length() {
    let mut p = fresh_process();
    p.allow(0xDEADBEEF, 16);
    let _ = p.begin_unyield(None);
    let err = p.accept_region_payload(0, vec![0u8; 9]).unwrap_err();
    assert_eq!(err, EmulationError::PartialMessage(16, 9));
    // nothing changed: the region is still invalid, so not shipped
    p.complete_unyield();
    let frames = p.begin_unyield(Some(KernelReturn::new_ret(0)));
    assert_eq!(frames.len(), 2);
}

#[test]
fn unyield_exchanges_are_sequential() {
    let mut p = fresh_process();
    let _ = p.begin_unyield(None);
    p.complete_unyield();
    let _ = p.begin_unyield(Some(KernelReturn::new_ret(1)));
    p.complete_unyield();
}

#[test]
fn allow_slice_lifecycle() {
    let mut s = AllowSlice::new(vec![0u8; 4]);
    assert!(!s.is_valid());
    assert_eq!(s.len(), 4);
    assert_eq!(s.get(), &vec![0u8; 4]);
    s.set(vec![1, 2, 3, 4]);
    s.validate();
    assert!(s.is_valid());
    assert_eq!(s.get(), &vec![1, 2, 3, 4]);
}

#[test]
fn exchange_guards_are_observable() {
    let mut p = fresh_process();
    assert!(!p.unyield_active());
    assert!(p.can_allow());
    let _ = p.begin_unyield(None);
    assert!(p.unyield_active());
    p.complete_unyield();
    assert!(!p.unyield_active());
}
