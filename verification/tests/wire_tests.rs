use host_emulation::wire::{
    AllowedRegionPreamble, Callback, KernelReturn, Syscall, CALLBACK_WIRE_BYTES,
    KERNEL_RETURN_WIRE_BYTES, PREAMBLE_WIRE_BYTES, SYSCALL_WIRE_BYTES,
};
use host_emulation::EmulationError;

#[test]
fn syscall_constructors_fill_missing_args_with_zero() {
    assert_eq!(Syscall::new0(7), Syscall::new(7, 0, 0, 0, 0));
    assert_eq!(Syscall::new1(7, 1), Syscall::new(7, 1, 0, 0, 0));
    assert_eq!(Syscall::new2(7, 1, 2), Syscall::new(7, 1, 2, 0, 0));
    assert_eq!(Syscall::new3(7, 1, 2, 3), Syscall::new(7, 1, 2, 3, 0));
}

#[test]
fn callback_constructors_fill_missing_args_with_zero() {
    assert_eq!(Callback::new0(7), Callback::new(7, 0, 0, 0, 0));
    assert_eq!(Callback::new1(7, 1), Callback::new(7, 1, 0, 0, 0));
    assert_eq!(Callback::new2(7, 1, 2), Callback::new(7, 1, 2, 0, 0));
    assert_eq!(Callback::new3(7, 1, 2, 3), Callback::new(7, 1, 2, 3, 0));
}

#[test]
fn kernel_return_ret_embeds_null_callback() {
    let k = KernelReturn::new_ret(-17);
    assert_eq!(k, KernelReturn::new_ret(-17));
    let bytes = k.encode();
    // ret_val -17 in two's complement little-endian
    assert_eq!(&bytes[0..8], &[0xef, 0xff, 0xff, 0xff, 0xff, 0xff, 0xff, 0xff]);
    // embedded callback pc is zero so the app reads the return value
    assert_eq!(&bytes[8..16], &[0; 8]);
}

#[test]
fn kernel_return_cb_has_zero_ret_val() {
    let k = KernelReturn::new_cb(Callback::new(0x1000, 1, 2, 3, 4));
    let bytes = k.encode();
    assert_eq!(&bytes[0..8], &[0; 8]); // ret_val 0
    assert_eq!(&bytes[8..16], &[0x00, 0x10, 0, 0, 0, 0, 0, 0]); // pc 0x1000
}

#[test]
fn preamble_null_terminator() {
    let p = AllowedRegionPreamble::new_null();
    assert!(p.is_null());
    assert_eq!(p, AllowedRegionPreamble::new(0, 0));
    assert!(!AllowedRegionPreamble::new(0xDEADBEEF, 16).is_null());
}

#[test]
fn syscall_encode_exact_bytes() {
    let s = Syscall::new(1, 2, 3, 4, 5);
    let b = s.encode();
    assert_eq!(b.len(), SYSCALL_WIRE_BYTES);
    let mut expected = Vec::new();
    for w in [1u64, 2, 3, 4, 5] {
        expected.extend_from_slice(&w.to_le_bytes());
    }
    assert_eq!(b, expected);
}

#[test]
fn syscall_roundtrip() {
    let s = Syscall::new(3, 2, 0, 0xDEADBEEF, 16);
    let b = s.encode();
    let d = Syscall::decode(&b).unwrap();
    assert_eq!(d, s);
    // bytes round trip through decode then encode
    assert_eq!(d.encode(), b);
}

#[test]
fn callback_roundtrip() {
    let c = Callback::new(0x1000, 1, 2, 3, 4);
    let b = c.encode();
    assert_eq!(b.len(), CALLBACK_WIRE_BYTES);
    let d = Callback::decode(&b).unwrap();
    assert_eq!(d, c);
    assert_eq!(d.encode(), b);
}

#[test]
fn kernel_return_roundtrip() {
    let k = KernelReturn::new_ret(i64::MIN);
    let b = k.encode();
    assert_eq!(b.len(), KERNEL_RETURN_WIRE_BYTES);
    let d = KernelReturn::decode(&b).unwrap();
    assert_eq!(d, k);
    assert_eq!(d.encode(), b);
}

#[test]
fn preamble_roundtrip() {
    let p = AllowedRegionPreamble::new(0xDEADBEEF, 16);
    let b = p.encode();
    assert_eq!(b.len(), PREAMBLE_WIRE_BYTES);
    let d = AllowedRegionPreamble::decode(&b).unwrap();
    assert_eq!(d, p);
    assert_eq!(d.encode(), b);
}

#[test]
fn decode_rejects_short_datagram() {
    // a datagram shorter than the frame is a deserialization failure
    let short = vec![0u8; SYSCALL_WIRE_BYTES - 1];
    match Syscall::decode(&short) {
        Err(EmulationError::Custom(_)) => {},
        other => panic!("expected Custom error, got {:?}", other),
    }
}

#[test]
fn decode_rejects_long_datagram() {
    let long = vec![0u8; KERNEL_RETURN_WIRE_BYTES + 1];
    assert!(KernelReturn::decode(&long).is_err());
    let long = vec![0u8; CALLBACK_WIRE_BYTES + 8];
    assert!(Callback::decode(&long).is_err());
    let long = vec![0u8; PREAMBLE_WIRE_BYTES + 1];
    assert!(AllowedRegionPreamble::decode(&long).is_err());
}

#[test]
fn roundtrip_at_word_boundaries() {
    let s = Syscall::new(u64::MAX, 0, u64::MAX, 1, u64::MAX - 1);
    assert_eq!(Syscall::decode(&s.encode()).unwrap(), s);
    let k = KernelReturn::new_ret(i64::MAX);
    assert_eq!(KernelReturn::decode(&k.encode()).unwrap(), k);
    let p = AllowedRegionPreamble::new(u64::MAX, u64::MAX);
    assert_eq!(AllowedRegionPreamble::decode(&p.encode()).unwrap(), p);
}
