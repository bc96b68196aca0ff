//! Fixed-layout wire frames and their little-endian codec.
//!
//! Every frame is packed, contiguous and unaligned-safe: a sequence of 64-bit
//! little-endian words.  Deserialization is a validated cast: a byte slice of
//! exactly the record's size is reinterpreted, any other length is an error.

use vstd::prelude::*;
use vstd::bytes::*;
use vstd::slice::slice_subrange;

use crate::EmulationError;

verus! {

/// Wire size of a `Syscall` frame: one word plus four argument words.
pub const SYSCALL_WIRE_BYTES: usize = 40;

/// Wire size of a `Callback` frame: one word plus four argument words.
pub const CALLBACK_WIRE_BYTES: usize = 40;

/// Wire size of a `KernelReturn` frame: a return word plus an embedded callback.
pub const KERNEL_RETURN_WIRE_BYTES: usize = 48;

/// Wire size of an `AllowedRegionPreamble` frame: an address word and a length word.
pub const PREAMBLE_WIRE_BYTES: usize = 16;

/// A syscall request frame, sent app to kernel.
#[derive(Debug, Copy, Clone, PartialEq, Eq)]
#[verifier::ext_equal]
pub struct Syscall {
    pub syscall_number: u64,
    pub args: [u64; 4],
}

/// A callback descriptor frame: the program counter to invoke and its arguments.
#[derive(Debug, Copy, Clone, PartialEq, Eq)]
#[verifier::ext_equal]
pub struct Callback {
    pub pc: u64,
    pub args: [u64; 4],
}

/// A kernel-to-app return frame.  Exactly one of the two parts is meaningful
/// per message: the app discriminates on whether `cb.pc` is zero.
#[derive(Debug, Copy, Clone, PartialEq, Eq)]
pub struct KernelReturn {
    pub ret_val: i64,
    pub cb: Callback,
}

/// The (address, length) header that precedes one allow region's bytes on the
/// wire.  An all-zero preamble terminates a region list.
#[derive(Debug, Copy, Clone, PartialEq, Eq)]
pub struct AllowedRegionPreamble {
    pub address: u64,
    pub length: u64,
}

impl Syscall {
    pub fn new(syscall_number: u64, arg0: u64, arg1: u64, arg2: u64, arg3: u64) -> (r: Syscall)
        ensures
            r.syscall_number == syscall_number,
            r.args[0] == arg0,
            r.args[1] == arg1,
            r.args[2] == arg2,
            r.args[3] == arg3,
    {
        Syscall { syscall_number, args: [arg0, arg1, arg2, arg3] }
    }

    pub fn new0(syscall_number: u64) -> (r: Syscall)
        ensures
            r.syscall_number == syscall_number,
            r.args[0] == 0,
            r.args[1] == 0,
            r.args[2] == 0,
            r.args[3] == 0,
    {
        Syscall::new1(syscall_number, 0)
    }

    pub fn new1(syscall_number: u64, arg0: u64) -> (r: Syscall)
        ensures
            r.syscall_number == syscall_number,
            r.args[0] == arg0,
            r.args[1] == 0,
            r.args[2] == 0,
            r.args[3] == 0,
    {
        Syscall::new2(syscall_number, arg0, 0)
    }

    pub fn new2(syscall_number: u64, arg0: u64, arg1: u64) -> (r: Syscall)
        ensures
            r.syscall_number == syscall_number,
            r.args[0] == arg0,
            r.args[1] == arg1,
            r.args[2] == 0,
            r.args[3] == 0,
    {
        Syscall::new3(syscall_number, arg0, arg1, 0)
    }

    pub fn new3(syscall_number: u64, arg0: u64, arg1: u64, arg2: u64) -> (r: Syscall)
        ensures
            r.syscall_number == syscall_number,
            r.args[0] == arg0,
            r.args[1] == arg1,
            r.args[2] == arg2,
            r.args[3] == 0,
    {
        Syscall::new(syscall_number, arg0, arg1, arg2, 0)
    }
}

impl Callback {
    pub fn new(pc: u64, arg0: u64, arg1: u64, arg2: u64, arg3: u64) -> (r: Callback)
        ensures
            r.pc == pc,
            r.args[0] == arg0,
            r.args[1] == arg1,
            r.args[2] == arg2,
            r.args[3] == arg3,
    {
        Callback { pc, args: [arg0, arg1, arg2, arg3] }
    }

    pub fn new0(pc: u64) -> (r: Callback)
        ensures
            r.pc == pc,
            r.args[0] == 0,
            r.args[1] == 0,
            r.args[2] == 0,
            r.args[3] == 0,
    {
        Callback::new1(pc, 0)
    }

    pub fn new1(pc: u64, arg0: u64) -> (r: Callback)
        ensures
            r.pc == pc,
            r.args[0] == arg0,
            r.args[1] == 0,
            r.args[2] == 0,
            r.args[3] == 0,
    {
        Callback::new2(pc, arg0, 0)
    }

    pub fn new2(pc: u64, arg0: u64, arg1: u64) -> (r: Callback)
        ensures
            r.pc == pc,
            r.args[0] == arg0,
            r.args[1] == arg1,
            r.args[2] == 0,
            r.args[3] == 0,
    {
        Callback::new3(pc, arg0, arg1, 0)
    }

    pub fn new3(pc: u64, arg0: u64, arg1: u64, arg2: u64) -> (r: Callback)
        ensures
            r.pc == pc,
            r.args[0] == arg0,
            r.args[1] == arg1,
            r.args[2] == arg2,
            r.args[3] == 0,
    {
        Callback::new(pc, arg0, arg1, arg2, 0)
    }
}

impl KernelReturn {
    fn new(ret_val: i64, cb: Callback) -> (r: KernelReturn)
        ensures
            r.ret_val == ret_val,
            r.cb == cb,
    {
        KernelReturn { ret_val, cb }
    }

    /// A plain syscall return: the embedded callback's `pc` is zero, so the
    /// app reads `ret_val`.
    pub fn new_ret(ret_val: i64) -> (r: KernelReturn)
        ensures
            r.ret_val == ret_val,
            r.cb.pc == 0,
            r.cb.args[0] == 0,
            r.cb.args[1] == 0,
            r.cb.args[2] == 0,
            r.cb.args[3] == 0,
    {
        KernelReturn::new(ret_val, Callback::new0(0))
    }

    /// A callback delivery: `ret_val` is zero and the app jumps to `cb.pc`.
    pub fn new_cb(cb: Callback) -> (r: KernelReturn)
        ensures
            r.ret_val == 0,
            r.cb == cb,
    {
        KernelReturn::new(0, cb)
    }
}

impl AllowedRegionPreamble {
    pub fn new(address: u64, length: u64) -> (r: AllowedRegionPreamble)
        ensures
            r.address == address,
            r.length == length,
    {
        AllowedRegionPreamble { address, length }
    }

    /// The all-zero preamble that terminates a region list.
    pub fn new_null() -> (r: AllowedRegionPreamble)
        ensures
            r.address == 0,
            r.length == 0,
    {
        AllowedRegionPreamble::new(0, 0)
    }

    /// Whether this preamble is the list terminator.
    pub fn is_null(&self) -> (r: bool)
        ensures
            r == (self.address == 0 && self.length == 0),
    {
        self.address == 0 && self.length == 0
    }
}

} // verus!

verus! {

/// The unsigned word that carries a signed return value on the wire, as the
/// two's-complement reinterpretation of `x`.
pub open spec fn spec_word_of_i64(x: i64) -> u64 {
    x as u64
}

/// The signed reading of a wire word.
pub open spec fn spec_i64_of_word(w: u64) -> i64 {
    w as i64
}

/// Reinterpreting a signed value as a wire word and back is the identity, and
/// so is the reverse.
pub proof fn lemma_word_i64_roundtrip(x: i64, w: u64)
    ensures
        spec_i64_of_word(spec_word_of_i64(x)) == x,
        spec_word_of_i64(spec_i64_of_word(w)) == w,
{
    assert(((x as u64) as i64) == x) by (bit_vector);
    assert(((w as i64) as u64) == w) by (bit_vector);
}

/// The encoding of a `Syscall` frame: five little-endian words.
pub open spec fn spec_encode_syscall(s: Syscall) -> Seq<u8> {
    spec_u64_to_le_bytes(s.syscall_number) + spec_u64_to_le_bytes(s.args[0])
        + spec_u64_to_le_bytes(s.args[1]) + spec_u64_to_le_bytes(s.args[2])
        + spec_u64_to_le_bytes(s.args[3])
}

/// The `Syscall` frame read from a byte sequence of exactly `SYSCALL_WIRE_BYTES`.
pub open spec fn spec_decode_syscall(b: Seq<u8>) -> Syscall
    recommends
        b.len() == SYSCALL_WIRE_BYTES,
{
    Syscall {
        syscall_number: spec_u64_from_le_bytes(b.subrange(0, 8)),
        args: [
            spec_u64_from_le_bytes(b.subrange(8, 16)),
            spec_u64_from_le_bytes(b.subrange(16, 24)),
            spec_u64_from_le_bytes(b.subrange(24, 32)),
            spec_u64_from_le_bytes(b.subrange(32, 40)),
        ],
    }
}

/// The encoding of a `Callback` frame: five little-endian words.
pub open spec fn spec_encode_callback(c: Callback) -> Seq<u8> {
    spec_u64_to_le_bytes(c.pc) + spec_u64_to_le_bytes(c.args[0])
        + spec_u64_to_le_bytes(c.args[1]) + spec_u64_to_le_bytes(c.args[2])
        + spec_u64_to_le_bytes(c.args[3])
}

/// The `Callback` frame read from a byte sequence of exactly `CALLBACK_WIRE_BYTES`.
pub open spec fn spec_decode_callback(b: Seq<u8>) -> Callback
    recommends
        b.len() == CALLBACK_WIRE_BYTES,
{
    Callback {
        pc: spec_u64_from_le_bytes(b.subrange(0, 8)),
        args: [
            spec_u64_from_le_bytes(b.subrange(8, 16)),
            spec_u64_from_le_bytes(b.subrange(16, 24)),
            spec_u64_from_le_bytes(b.subrange(24, 32)),
            spec_u64_from_le_bytes(b.subrange(32, 40)),
        ],
    }
}

/// The encoding of a `KernelReturn` frame: the return word followed by the
/// embedded callback.
pub open spec fn spec_encode_kernel_return(k: KernelReturn) -> Seq<u8> {
    spec_u64_to_le_bytes(spec_word_of_i64(k.ret_val)) + spec_encode_callback(k.cb)
}

/// The `KernelReturn` frame read from a byte sequence of exactly
/// `KERNEL_RETURN_WIRE_BYTES`.
pub open spec fn spec_decode_kernel_return(b: Seq<u8>) -> KernelReturn
    recommends
        b.len() == KERNEL_RETURN_WIRE_BYTES,
{
    KernelReturn {
        ret_val: spec_i64_of_word(spec_u64_from_le_bytes(b.subrange(0, 8))),
        cb: spec_decode_callback(b.subrange(8, 48)),
    }
}

/// The encoding of an `AllowedRegionPreamble` frame: two little-endian words.
pub open spec fn spec_encode_preamble(p: AllowedRegionPreamble) -> Seq<u8> {
    spec_u64_to_le_bytes(p.address) + spec_u64_to_le_bytes(p.length)
}

/// The `AllowedRegionPreamble` read from a byte sequence of exactly
/// `PREAMBLE_WIRE_BYTES`.
pub open spec fn spec_decode_preamble(b: Seq<u8>) -> AllowedRegionPreamble
    recommends
        b.len() == PREAMBLE_WIRE_BYTES,
{
    AllowedRegionPreamble {
        address: spec_u64_from_le_bytes(b.subrange(0, 8)),
        length: spec_u64_from_le_bytes(b.subrange(8, 16)),
    }
}

impl Syscall {
    /// Serialize this frame as one datagram payload.
    pub fn encode(&self) -> (r: Vec<u8>)
        ensures
            r@ == spec_encode_syscall(*self),
            r@.len() == SYSCALL_WIRE_BYTES,
    {
        proof { lemma_auto_spec_u64_to_from_le_bytes(); }
        let mut out = u64_to_le_bytes(self.syscall_number);
        let mut w = u64_to_le_bytes(self.args[0]);
        out.append(&mut w);
        let mut w = u64_to_le_bytes(self.args[1]);
        out.append(&mut w);
        let mut w = u64_to_le_bytes(self.args[2]);
        out.append(&mut w);
        let mut w = u64_to_le_bytes(self.args[3]);
        out.append(&mut w);
        out
    }

    /// The validated cast from one datagram's bytes: succeeds exactly when
    /// the payload has the frame's size.
    pub fn decode(bytes: &[u8]) -> (r: Result<Syscall, EmulationError>)
        ensures
            bytes@.len() == SYSCALL_WIRE_BYTES <==> r is Ok,
            r matches Ok(s) ==> s == spec_decode_syscall(bytes@),
            r matches Err(e) ==> e matches EmulationError::Custom(_),
    {
        if bytes.len() != SYSCALL_WIRE_BYTES {
            return Err(EmulationError::Custom("failed to deserialize Syscall".to_string()));
        }
        let syscall_number = u64_from_le_bytes(slice_subrange(bytes, 0, 8));
        let a0 = u64_from_le_bytes(slice_subrange(bytes, 8, 16));
        let a1 = u64_from_le_bytes(slice_subrange(bytes, 16, 24));
        let a2 = u64_from_le_bytes(slice_subrange(bytes, 24, 32));
        let a3 = u64_from_le_bytes(slice_subrange(bytes, 32, 40));
        Ok(Syscall { syscall_number, args: [a0, a1, a2, a3] })
    }
}

impl Callback {
    /// Serialize this frame as one datagram payload.
    pub fn encode(&self) -> (r: Vec<u8>)
        ensures
            r@ == spec_encode_callback(*self),
            r@.len() == CALLBACK_WIRE_BYTES,
    {
        proof { lemma_auto_spec_u64_to_from_le_bytes(); }
        let mut out = u64_to_le_bytes(self.pc);
        let mut w = u64_to_le_bytes(self.args[0]);
        out.append(&mut w);
        let mut w = u64_to_le_bytes(self.args[1]);
        out.append(&mut w);
        let mut w = u64_to_le_bytes(self.args[2]);
        out.append(&mut w);
        let mut w = u64_to_le_bytes(self.args[3]);
        out.append(&mut w);
        out
    }

    /// The validated cast from one datagram's bytes: succeeds exactly when
    /// the payload has the frame's size.
    pub fn decode(bytes: &[u8]) -> (r: Result<Callback, EmulationError>)
        ensures
            bytes@.len() == CALLBACK_WIRE_BYTES <==> r is Ok,
            r matches Ok(c) ==> c == spec_decode_callback(bytes@),
            r matches Err(e) ==> e matches EmulationError::Custom(_),
    {
        if bytes.len() != CALLBACK_WIRE_BYTES {
            return Err(EmulationError::Custom("failed to deserialize Callback".to_string()));
        }
        let pc = u64_from_le_bytes(slice_subrange(bytes, 0, 8));
        let a0 = u64_from_le_bytes(slice_subrange(bytes, 8, 16));
        let a1 = u64_from_le_bytes(slice_subrange(bytes, 16, 24));
        let a2 = u64_from_le_bytes(slice_subrange(bytes, 24, 32));
        let a3 = u64_from_le_bytes(slice_subrange(bytes, 32, 40));
        Ok(Callback { pc, args: [a0, a1, a2, a3] })
    }
}

impl KernelReturn {
    /// Serialize this frame as one datagram payload.
    pub fn encode(&self) -> (r: Vec<u8>)
        ensures
            r@ == spec_encode_kernel_return(*self),
            r@.len() == KERNEL_RETURN_WIRE_BYTES,
    {
        proof { lemma_auto_spec_u64_to_from_le_bytes(); }
        let mut out = u64_to_le_bytes(#[verifier::truncate] (self.ret_val as u64));
        let mut cb = self.cb.encode();
        out.append(&mut cb);
        out
    }

    /// The validated cast from one datagram's bytes: succeeds exactly when
    /// the payload has the frame's size.
    pub fn decode(bytes: &[u8]) -> (r: Result<KernelReturn, EmulationError>)
        ensures
            bytes@.len() == KERNEL_RETURN_WIRE_BYTES <==> r is Ok,
            r matches Ok(k) ==> k == spec_decode_kernel_return(bytes@),
            r matches Err(e) ==> e matches EmulationError::Custom(_),
    {
        if bytes.len() != KERNEL_RETURN_WIRE_BYTES {
            return Err(EmulationError::Custom("failed to deserialize KernelReturn".to_string()));
        }
        let ret_word = u64_from_le_bytes(slice_subrange(bytes, 0, 8));
        let ret_val = #[verifier::truncate] (ret_word as i64);
        let cb_bytes = slice_subrange(bytes, 8, 48);
        let cb = match Callback::decode(cb_bytes) {
            Ok(cb) => cb,
            Err(e) => {
                return Err(e);
            },
        };
        Ok(KernelReturn { ret_val, cb })
    }
}

impl AllowedRegionPreamble {
    /// Serialize this frame as one datagram payload.
    pub fn encode(&self) -> (r: Vec<u8>)
        ensures
            r@ == spec_encode_preamble(*self),
            r@.len() == PREAMBLE_WIRE_BYTES,
    {
        proof { lemma_auto_spec_u64_to_from_le_bytes(); }
        let mut out = u64_to_le_bytes(self.address);
        let mut w = u64_to_le_bytes(self.length);
        out.append(&mut w);
        out
    }

    /// The validated cast from one datagram's bytes: succeeds exactly when
    /// the payload has the frame's size.
    pub fn decode(bytes: &[u8]) -> (r: Result<AllowedRegionPreamble, EmulationError>)
        ensures
            bytes@.len() == PREAMBLE_WIRE_BYTES <==> r is Ok,
            r matches Ok(p) ==> p == spec_decode_preamble(bytes@),
            r matches Err(e) ==> e matches EmulationError::Custom(_),
    {
        if bytes.len() != PREAMBLE_WIRE_BYTES {
            return Err(EmulationError::Custom(
                "failed to deserialize AllowedRegionPreamble".to_string(),
            ));
        }
        let address = u64_from_le_bytes(slice_subrange(bytes, 0, 8));
        let length = u64_from_le_bytes(slice_subrange(bytes, 8, 16));
        Ok(AllowedRegionPreamble { address, length })
    }
}

/// Frame round trip for `Syscall`: decoding an encoding is the identity, and
/// encoding the decoding of any byte sequence of the frame's size gives those
/// bytes back.
pub proof fn lemma_syscall_roundtrip(s: Syscall, b: Seq<u8>)
    ensures
        spec_decode_syscall(spec_encode_syscall(s)) == s,
        b.len() == SYSCALL_WIRE_BYTES ==> spec_encode_syscall(spec_decode_syscall(b)) == b,
{
    lemma_auto_spec_u64_to_from_le_bytes();
    let e = spec_encode_syscall(s);
    assert(e.subrange(0, 8) =~= spec_u64_to_le_bytes(s.syscall_number));
    assert(e.subrange(8, 16) =~= spec_u64_to_le_bytes(s.args[0]));
    assert(e.subrange(16, 24) =~= spec_u64_to_le_bytes(s.args[1]));
    assert(e.subrange(24, 32) =~= spec_u64_to_le_bytes(s.args[2]));
    assert(e.subrange(32, 40) =~= spec_u64_to_le_bytes(s.args[3]));
    let d = spec_decode_syscall(e);
    assert(d.args == [s.args[0], s.args[1], s.args[2], s.args[3]]);
    assert(d =~= s);
    if b.len() == SYSCALL_WIRE_BYTES {
        assert(spec_encode_syscall(spec_decode_syscall(b)) =~= b);
    }
}

/// Frame round trip for `Callback`, as for `Syscall`.
pub proof fn lemma_callback_roundtrip(c: Callback, b: Seq<u8>)
    ensures
        spec_decode_callback(spec_encode_callback(c)) == c,
        b.len() == CALLBACK_WIRE_BYTES ==> spec_encode_callback(spec_decode_callback(b)) == b,
{
    lemma_auto_spec_u64_to_from_le_bytes();
    let e = spec_encode_callback(c);
    assert(e.subrange(0, 8) =~= spec_u64_to_le_bytes(c.pc));
    assert(e.subrange(8, 16) =~= spec_u64_to_le_bytes(c.args[0]));
    assert(e.subrange(16, 24) =~= spec_u64_to_le_bytes(c.args[1]));
    assert(e.subrange(24, 32) =~= spec_u64_to_le_bytes(c.args[2]));
    assert(e.subrange(32, 40) =~= spec_u64_to_le_bytes(c.args[3]));
    let d = spec_decode_callback(e);
    assert(d.args == [c.args[0], c.args[1], c.args[2], c.args[3]]);
    assert(d =~= c);
    if b.len() == CALLBACK_WIRE_BYTES {
        assert(spec_encode_callback(spec_decode_callback(b)) =~= b);
    }
}

/// Frame round trip for `KernelReturn`, as for `Syscall`.
pub proof fn lemma_kernel_return_roundtrip(k: KernelReturn, b: Seq<u8>)
    ensures
        spec_decode_kernel_return(spec_encode_kernel_return(k)) == k,
        b.len() == KERNEL_RETURN_WIRE_BYTES ==> spec_encode_kernel_return(
            spec_decode_kernel_return(b),
        ) == b,
{
    lemma_auto_spec_u64_to_from_le_bytes();
    lemma_word_i64_roundtrip(k.ret_val, 0);
    let e = spec_encode_kernel_return(k);
    assert(e.subrange(0, 8) =~= spec_u64_to_le_bytes(spec_word_of_i64(k.ret_val)));
    assert(e.subrange(8, 48) =~= spec_encode_callback(k.cb));
    lemma_callback_roundtrip(k.cb, e.subrange(8, 48));
    if b.len() == KERNEL_RETURN_WIRE_BYTES {
        lemma_word_i64_roundtrip(0, spec_u64_from_le_bytes(b.subrange(0, 8)));
        lemma_callback_roundtrip(k.cb, b.subrange(8, 48));
        assert(spec_encode_kernel_return(spec_decode_kernel_return(b)) =~= b);
    }
}

/// Frame round trip for `AllowedRegionPreamble`, as for `Syscall`.
pub proof fn lemma_preamble_roundtrip(p: AllowedRegionPreamble, b: Seq<u8>)
    ensures
        spec_decode_preamble(spec_encode_preamble(p)) == p,
        b.len() == PREAMBLE_WIRE_BYTES ==> spec_encode_preamble(spec_decode_preamble(b)) == b,
{
    lemma_auto_spec_u64_to_from_le_bytes();
    let e = spec_encode_preamble(p);
    assert(e.subrange(0, 8) =~= spec_u64_to_le_bytes(p.address));
    assert(e.subrange(8, 16) =~= spec_u64_to_le_bytes(p.length));
    if b.len() == PREAMBLE_WIRE_BYTES {
        assert(spec_encode_preamble(spec_decode_preamble(b)) =~= b);
    }
}

} // verus!
