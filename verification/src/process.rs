//! The per-process kernel-side model: the allow-map and the unyield exchange.
//!
//! Each emulated application is a separate child process.  The kernel keeps,
//! per process, a shadow copy of every memory region the app has "allowed" to
//! the kernel, keyed by the app-space address (an opaque integer, never
//! dereferenced).  The unyield exchange — one round trip per scheduling
//! quantum — ships the previous kernel return plus every valid shadow region
//! to the app, receives the next syscall, and then refreshes every shadow
//! region from the app.  This module computes the exact frame scripts of that
//! exchange and applies the received payloads; the harness moves the bytes.

use vstd::prelude::*;

use crate::wire::{AllowedRegionPreamble, KernelReturn};
use crate::EmulationError;

verus! {

/// The mathematical model of one allow region: the kernel-side shadow bytes,
/// the app-space key, the kernel-space address handed to the scheduler, and
/// whether the app has shipped the region's contents at least once.
#[verifier::ext_equal]
pub ghost struct RegionModel {
    pub app_addr: u64,
    pub kern_addr: u64,
    pub bytes: Seq<u8>,
    pub valid: bool,
}

/// The mathematical model of one emulated process.
#[verifier::ext_equal]
pub ghost struct ProcessModel {
    pub id: usize,
    pub name: Seq<char>,
    pub proc_path: Seq<char>,
    pub started: bool,
    pub unyield_active: bool,
    pub next_kern_addr: u64,
    pub regions: Seq<RegionModel>,
}

/// A kernel-side shadow copy of one allowed memory region: the backing byte
/// buffer and a flag that is false until the app has shipped its contents at
/// least once.
pub struct AllowSlice {
    slice: Vec<u8>,
    valid: bool,
}

impl View for AllowSlice {
    type V = (Seq<u8>, bool);

    closed spec fn view(&self) -> (Seq<u8>, bool) {
        (self.slice@, self.valid)
    }
}

impl AllowSlice {
    pub fn new(slice: Vec<u8>) -> (r: AllowSlice)
        ensures
            r@.0 == slice@,
            r@.1 == false,
    {
        AllowSlice { slice, valid: false }
    }

    /// Whether the app has populated this slice at least once.
    pub fn is_valid(&self) -> (r: bool)
        ensures
            r == self@.1,
    {
        self.valid
    }

    pub fn len(&self) -> (r: usize)
        ensures
            r == self@.0.len(),
    {
        self.slice.len()
    }

    pub fn get(&self) -> (r: &Vec<u8>)
        ensures
            r@ == self@.0,
    {
        &self.slice
    }

    /// Replaces the shadow bytes with `data`, which must have the region's
    /// length.
    pub fn set(&mut self, data: Vec<u8>)
        requires
            data@.len() == old(self)@.0.len(),
        ensures
            final(self)@.0 == data@,
            final(self)@.1 == old(self)@.1,
    {
        self.slice = data;
    }

    /// Marks the slice as populated by the app.
    pub fn validate(&mut self)
        ensures
            final(self)@.0 == old(self)@.0,
            final(self)@.1 == true,
    {
        self.valid = true;
    }
}

/// One entry of the allow-map: the shadow slice with its two addresses.
pub struct AllowRegion {
    app_addr: u64,
    kern_addr: u64,
    slice: AllowSlice,
}

impl View for AllowRegion {
    type V = RegionModel;

    closed spec fn view(&self) -> RegionModel {
        RegionModel {
            app_addr: self.app_addr,
            kern_addr: self.kern_addr,
            bytes: self.slice@.0,
            valid: self.slice@.1,
        }
    }
}

/// Whether `rs` holds an entry keyed by `addr`.
pub open spec fn has_addr(rs: Seq<RegionModel>, addr: u64) -> bool {
    exists|i: int| 0 <= i < rs.len() && rs[i].app_addr == addr
}

/// The exact effect of one allow-syscall on a process model: a null app
/// address returns the null handle and changes nothing; otherwise a fresh
/// kernel handle is drawn from the counter and a zero-filled, not-yet-valid
/// region of length `len` keyed by `app_addr` is inserted, replacing in place
/// any entry already keyed by `app_addr`.
pub open spec fn spec_allow_effect(
    pre: ProcessModel,
    post: ProcessModel,
    app_addr: u64,
    len: nat,
    kern_addr: u64,
) -> bool {
    if app_addr == 0 {
        kern_addr == 0 && post == pre
    } else {
        let fresh = RegionModel {
            app_addr,
            kern_addr,
            bytes: Seq::new(len, |i: int| 0u8),
            valid: false,
        };
        &&& kern_addr == pre.next_kern_addr
        &&& post.next_kern_addr == pre.next_kern_addr + 1
        &&& (!has_addr(pre.regions, app_addr) ==> post.regions == pre.regions.push(fresh))
        &&& (has_addr(pre.regions, app_addr) ==> exists|i: int|
            {
                &&& 0 <= i < pre.regions.len()
                &&& (#[trigger] pre.regions[i]).app_addr == app_addr
                &&& post.regions == pre.regions.update(i, fresh)
            })
        &&& post.id == pre.id
        &&& post.name == pre.name
        &&& post.proc_path == pre.proc_path
        &&& post.started == pre.started
        &&& post.unyield_active == pre.unyield_active
    }
}

/// One emulated application process, as the kernel sees it: its identity,
/// whether its child process has been spawned, whether an unyield exchange is
/// in flight, and the allow-map in insertion order.  Kernel-space addresses
/// for allowed regions are opaque handles drawn from a per-process counter;
/// zero is the null address on both sides.
pub struct UnixProcess {
    id: usize,
    name: String,
    proc_path: String,
    started: bool,
    unyield_active: bool,
    next_kern_addr: u64,
    regions: Vec<AllowRegion>,
}

impl View for UnixProcess {
    type V = ProcessModel;

    closed spec fn view(&self) -> ProcessModel {
        ProcessModel {
            id: self.id,
            name: self.name@,
            proc_path: self.proc_path@,
            started: self.started,
            unyield_active: self.unyield_active,
            next_kern_addr: self.next_kern_addr,
            regions: Seq::new(self.regions@.len(), |i: int| self.regions@[i]@),
        }
    }
}

impl UnixProcess {
    /// The allow-map's structural invariant: app addresses are non-null and
    /// unique, and every kernel address is a non-null handle drawn below the
    /// counter.
    pub open spec fn wf(&self) -> bool {
        &&& self@.next_kern_addr >= 1
        &&& forall|i: int|
            0 <= i < self@.regions.len() ==> {
                &&& (#[trigger] self@.regions[i]).app_addr != 0
                &&& self@.regions[i].kern_addr != 0
                &&& self@.regions[i].kern_addr < self@.next_kern_addr
            }
        &&& forall|i: int, j: int|
            0 <= i < j < self@.regions.len() ==> (#[trigger] self@.regions[i]).app_addr != (
            #[trigger] self@.regions[j]).app_addr
    }

    /// A fresh process model for the executable at `proc_path`: nothing
    /// spawned, no exchange in flight, an empty allow-map.
    pub fn new(proc_path: String, name: String, id: usize) -> (r: UnixProcess)
        ensures
            r@.id == id,
            r@.name == name@,
            r@.proc_path == proc_path@,
            !r@.started,
            !r@.unyield_active,
            r@.regions.len() == 0,
            r.wf(),
    {
        UnixProcess {
            id,
            name,
            proc_path,
            started: false,
            unyield_active: false,
            next_kern_addr: 1,
            regions: Vec::new(),
        }
    }

    /// Whether the child process has been spawned; guards double-spawn.
    pub fn was_started(&self) -> (r: bool)
        ensures
            r == self@.started,
    {
        self.started
    }

    pub fn get_id(&self) -> (r: usize)
        ensures
            r == self@.id,
    {
        self.id
    }

    /// The command path of the child executable.
    pub fn path(&self) -> (r: &String)
        ensures
            r@ == self@.proc_path,
    {
        &self.proc_path
    }

    /// Whether an unyield exchange is currently in flight.
    pub fn unyield_active(&self) -> (r: bool)
        ensures
            r == self@.unyield_active,
    {
        self.unyield_active
    }

    /// Whether the kernel-address counter can still hand out a fresh handle.
    pub fn can_allow(&self) -> (r: bool)
        ensures
            r == (self@.next_kern_addr < u64::MAX),
    {
        self.next_kern_addr < u64::MAX
    }

    /// Records that the harness has spawned the child process.
    pub fn mark_started(&mut self)
        ensures
            final(self)@ == (ProcessModel { started: true, ..old(self)@ }),
    {
        self.started = true;
    }

    /// The kernel's allow-syscall implementation: inserts a fresh zero-filled
    /// shadow buffer of length `len` keyed by `app_addr` and returns a fresh
    /// kernel-space handle for it.  A null app address maps to a null kernel
    /// address and inserts nothing.  Re-allowing an already-allowed app
    /// address replaces that entry in place.
    pub fn allow(&mut self, app_addr: u64, len: usize) -> (kern_addr: u64)
        requires
            old(self).wf(),
            old(self)@.next_kern_addr < u64::MAX,
        ensures
            final(self).wf(),
            spec_allow_effect(old(self)@, final(self)@, app_addr, len as nat, kern_addr),
    {
        if app_addr == 0 {
            proof {
                assert(final(self)@ =~~= old(self)@);
            }
            return 0;
        }
        let kern_addr = self.next_kern_addr;
        self.next_kern_addr = self.next_kern_addr + 1;
        let slice = zero_vec(len);
        let fresh = AllowRegion { app_addr, kern_addr, slice: AllowSlice::new(slice) };

        let ghost fresh_model = RegionModel {
            app_addr,
            kern_addr,
            bytes: Seq::new(len as nat, |i: int| 0u8),
            valid: false,
        };
        assert(fresh@ =~~= fresh_model);

        let n = self.regions.len();
        let mut i: usize = 0;
        let mut found: bool = false;
        while i < n && !found
            invariant
                n == self.regions@.len(),
                i <= n,
                found ==> i < n && (#[trigger] self.regions@[i as int])@.app_addr == app_addr,
                !found ==> forall|j: int|
                    0 <= j < i ==> (#[trigger] self.regions@[j])@.app_addr != app_addr,
            decreases n - i, (if found { 0int } else { 1int }),
        {
            if self.regions[i].app_addr == app_addr {
                found = true;
            } else {
                i = i + 1;
            }
        }
        if found {
            let ghost idx = i as int;
            self.regions.set(i, fresh);
            proof {
                assert(old(self)@.regions[idx].app_addr == app_addr);
                assert(final(self)@.regions =~~= old(self)@.regions.update(idx, fresh_model));
            }
        } else {
            self.regions.push(fresh);
            proof {
                assert(!has_addr(old(self)@.regions, app_addr));
                assert(final(self)@.regions =~~= old(self)@.regions.push(fresh_model));
            }
        }
        kern_addr
    }
}

/// A zero-filled byte buffer of length `len`.
fn zero_vec(len: usize) -> (r: Vec<u8>)
    ensures
        r@ == Seq::new(len as nat, |i: int| 0u8),
{
    let mut r: Vec<u8> = Vec::new();
    while r.len() < len
        invariant
            r@.len() <= len,
            forall|i: int| 0 <= i < r@.len() ==> r@[i] == 0u8,
        decreases len - r@.len(),
    {
        r.push(0);
    }
    proof {
        assert(r@ =~= Seq::new(len as nat, |i: int| 0u8));
    }
    r
}

/// The mathematical model of one outbound datagram of an unyield exchange.
#[verifier::ext_equal]
pub ghost enum FrameModel {
    /// The kernel return or callback shipped ahead of the region list.
    Return(KernelReturn),
    /// A region header, or the all-zero list terminator.
    Preamble(AllowedRegionPreamble),
    /// One region's shadow bytes.
    Payload(Seq<u8>),
}

/// One outbound datagram of an unyield exchange, ready for the transport.
#[derive(Debug, Clone, PartialEq, Eq)]
pub enum OutboundFrame {
    Return(KernelReturn),
    Preamble(AllowedRegionPreamble),
    Payload(Vec<u8>),
}

impl View for OutboundFrame {
    type V = FrameModel;

    open spec fn view(&self) -> FrameModel {
        match self {
            OutboundFrame::Return(k) => FrameModel::Return(*k),
            OutboundFrame::Preamble(p) => FrameModel::Preamble(*p),
            OutboundFrame::Payload(v) => FrameModel::Payload(v@),
        }
    }
}

/// The models of a frame sequence, datagram by datagram.
pub open spec fn spec_frame_models(frames: Seq<OutboundFrame>) -> Seq<FrameModel> {
    frames.map_values(|f: OutboundFrame| f@)
}

/// Reading one datagram's model out of a frame sequence.
pub proof fn lemma_frame_models_index(frames: Seq<OutboundFrame>, i: int)
    requires
        0 <= i < frames.len(),
    ensures
        spec_frame_models(frames).len() == frames.len(),
        spec_frame_models(frames)[i] == frames[i]@,
{
}

/// The all-zero preamble that terminates a region list.
pub open spec fn spec_null_preamble() -> AllowedRegionPreamble {
    AllowedRegionPreamble { address: 0, length: 0 }
}

/// The header announcing one region: its app-space address and length.
pub open spec fn spec_region_preamble(r: RegionModel) -> AllowedRegionPreamble {
    AllowedRegionPreamble { address: r.app_addr, length: r.bytes.len() as u64 }
}

/// The kernel-to-app region list: for every valid region, in insertion order,
/// its preamble followed by its bytes; then the terminator.  Regions the app
/// has not yet populated are skipped entirely, so no invalid shadow copy is
/// ever shipped back to the app.
pub open spec fn spec_outbound_region_frames(rs: Seq<RegionModel>) -> Seq<FrameModel>
    decreases rs.len(),
{
    if rs.len() == 0 {
        seq![FrameModel::Preamble(spec_null_preamble())]
    } else {
        (if rs[0].valid {
            seq![
                FrameModel::Preamble(spec_region_preamble(rs[0])),
                FrameModel::Payload(rs[0].bytes),
            ]
        } else {
            Seq::<FrameModel>::empty()
        }) + spec_outbound_region_frames(rs.drop_first())
    }
}

/// Everything the kernel sends before it blocks for the next syscall: nothing
/// at all on the first exchange, else the stored return followed by the
/// outbound region list.
pub open spec fn spec_unyield_outbound(
    ret: Option<KernelReturn>,
    rs: Seq<RegionModel>,
) -> Seq<FrameModel> {
    match ret {
        Option::None => Seq::<FrameModel>::empty(),
        Option::Some(k) => seq![FrameModel::Return(k)] + spec_outbound_region_frames(rs),
    }
}

/// The app-to-kernel region request list: one preamble for every region, in
/// insertion order, then the terminator.
pub open spec fn spec_inbound_preambles(rs: Seq<RegionModel>) -> Seq<AllowedRegionPreamble> {
    Seq::new(rs.len(), |i: int| spec_region_preamble(rs[i])).push(spec_null_preamble())
}

impl UnixProcess {
    /// Whether a new unyield exchange may begin for this process.
    pub open spec fn unyield_begin_enabled(&self) -> bool {
        self.wf() && !self@.unyield_active
    }

    /// Opens an unyield exchange and returns the exact sequence of datagrams
    /// the harness must send before blocking for the app's next syscall: on
    /// the first exchange nothing (`syscall_return` is `None`), otherwise the
    /// stored kernel return followed by every valid region with its preamble
    /// and the list terminator.
    pub fn begin_unyield(&mut self, syscall_return: Option<KernelReturn>) -> (frames: Vec<
        OutboundFrame,
    >)
        requires
            old(self).unyield_begin_enabled(),
        ensures
            final(self).wf(),
            final(self)@ == (ProcessModel { unyield_active: true, ..old(self)@ }),
            spec_frame_models(frames@) == spec_unyield_outbound(
                syscall_return,
                old(self)@.regions,
            ),
    {
        let ghost rs = self@.regions;
        let mut frames: Vec<OutboundFrame> = Vec::new();
        match syscall_return {
            None => {},
            Some(k) => {
                frames.push(OutboundFrame::Return(k));
                assert(spec_frame_models(frames@) =~= seq![FrameModel::Return(k)]);
                let n = self.regions.len();
                let mut i: usize = 0;
                proof {
                    assert(rs.skip(0) =~= rs);
                }
                while i < n
                    invariant
                        n == self.regions@.len(),
                        i <= n,
                        rs == self@.regions,
                        self == old(self),
                        spec_frame_models(frames@) + spec_outbound_region_frames(
                            rs.skip(i as int),
                        ) == spec_unyield_outbound(Some(k), rs),
                    decreases n - i,
                {
                    let ghost prev = spec_frame_models(frames@);
                    proof {
                        lemma_outbound_region_frames_decompose(rs, i as int);
                    }
                    if self.regions[i].slice.is_valid() {
                        let addr = self.regions[i].app_addr;
                        let len = self.regions[i].slice.len();
                        frames.push(OutboundFrame::Preamble(AllowedRegionPreamble::new(
                            addr,
                            len as u64,
                        )));
                        let bytes = vstd::slice::slice_to_vec(self.regions[i].slice.get().as_slice());
                        frames.push(OutboundFrame::Payload(bytes));
                        proof {
                            assert(spec_frame_models(frames@) =~= prev + seq![
                                FrameModel::Preamble(spec_region_preamble(rs[i as int])),
                                FrameModel::Payload(rs[i as int].bytes),
                            ]);
                            assert(prev + seq![
                                FrameModel::Preamble(spec_region_preamble(rs[i as int])),
                                FrameModel::Payload(rs[i as int].bytes),
                            ] + spec_outbound_region_frames(rs.skip(i + 1)) =~= prev
                                + spec_outbound_region_frames(rs.skip(i as int)));
                        }
                    } else {
                        proof {
                            assert(spec_outbound_region_frames(rs.skip(i as int))
                                == spec_outbound_region_frames(rs.skip(i + 1)));
                        }
                    }
                    i = i + 1;
                }
                frames.push(OutboundFrame::Preamble(AllowedRegionPreamble::new_null()));
                proof {
                    assert(rs.skip(n as int) =~= Seq::<RegionModel>::empty());
                    assert(spec_outbound_region_frames(rs.skip(n as int)) =~= seq![
                        FrameModel::Preamble(spec_null_preamble()),
                    ]);
                    assert(spec_frame_models(frames@) =~= spec_unyield_outbound(Some(k), rs));
                }
            },
        }
        self.unyield_active = true;
        proof {
            assert(final(self)@ =~~= (ProcessModel { unyield_active: true, ..old(self)@ }));
        }
        frames
    }

    /// The region request list of the exchange's inbound phase: one preamble
    /// per region in insertion order, then the terminator.  The kernel is
    /// authoritative: the app tracks nothing and sends exactly the regions
    /// requested here.
    pub fn inbound_preambles(&self) -> (r: Vec<AllowedRegionPreamble>)
        ensures
            r@ == spec_inbound_preambles(self@.regions),
    {
        let n = self.regions.len();
        let mut r: Vec<AllowedRegionPreamble> = Vec::new();
        let mut i: usize = 0;
        while i < n
            invariant
                n == self.regions@.len(),
                i <= n,
                r@.len() == i,
                forall|j: int|
                    0 <= j < i ==> r@[j] == spec_region_preamble(#[trigger] self@.regions[j]),
            decreases n - i,
        {
            let addr = self.regions[i].app_addr;
            let len = self.regions[i].slice.len();
            r.push(AllowedRegionPreamble::new(addr, len as u64));
            i = i + 1;
        }
        r.push(AllowedRegionPreamble::new_null());
        proof {
            assert(r@ =~= spec_inbound_preambles(self@.regions));
        }
        r
    }

    /// Stores the payload the app sent for the region at `index` and marks it
    /// valid.  A payload of any other length than the region's is the
    /// protocol violation `PartialMessage(expected, actual)` and changes
    /// nothing.
    pub fn accept_region_payload(&mut self, index: usize, data: Vec<u8>) -> (r: Result<
        (),
        EmulationError,
    >)
        requires
            old(self).wf(),
            old(self)@.unyield_active,
            index < old(self)@.regions.len(),
        ensures
            final(self).wf(),
            data@.len() == old(self)@.regions[index as int].bytes.len() ==> {
                &&& r is Ok
                &&& final(self)@ == (ProcessModel {
                    regions: old(self)@.regions.update(
                        index as int,
                        RegionModel {
                            bytes: data@,
                            valid: true,
                            ..old(self)@.regions[index as int]
                        },
                    ),
                    ..old(self)@
                })
            },
            data@.len() != old(self)@.regions[index as int].bytes.len() ==> {
                &&& r == Err::<(), EmulationError>(
                    EmulationError::PartialMessage(
                        old(self)@.regions[index as int].bytes.len() as usize,
                        data@.len() as usize,
                    ),
                )
                &&& final(self)@ == old(self)@
            },
    {
        let expected = self.regions[index].slice.len();
        if data.len() != expected {
            proof {
                assert(final(self)@ =~~= old(self)@);
            }
            return Err(EmulationError::PartialMessage(expected, data.len()));
        }
        let app_addr = self.regions[index].app_addr;
        let kern_addr = self.regions[index].kern_addr;
        let ghost updated = RegionModel {
            bytes: data@,
            valid: true,
            ..old(self)@.regions[index as int]
        };
        let fresh = AllowRegion { app_addr, kern_addr, slice: AllowSlice { slice: data, valid: true } };
        assert(fresh@ =~~= updated);
        self.regions.set(index, fresh);
        proof {
            assert(final(self)@ =~~= (ProcessModel {
                regions: old(self)@.regions.update(index as int, updated),
                ..old(self)@
            }));
        }
        Ok(())
    }

    /// Closes the unyield exchange: the next one may begin.
    pub fn complete_unyield(&mut self)
        requires
            old(self)@.unyield_active,
        ensures
            final(self)@ == (ProcessModel { unyield_active: false, ..old(self)@ }),
    {
        self.unyield_active = false;
        proof {
            assert(final(self)@ =~~= (ProcessModel { unyield_active: false, ..old(self)@ }));
        }
    }
}

/// Unfolds one region of the outbound list: the frames of `rs` from `i` on
/// are region `i`'s frames followed by the frames from `i + 1` on.
proof fn lemma_outbound_region_frames_decompose(rs: Seq<RegionModel>, i: int)
    requires
        0 <= i < rs.len(),
    ensures
        spec_outbound_region_frames(rs.skip(i)) == (if rs[i].valid {
            seq![
                FrameModel::Preamble(spec_region_preamble(rs[i])),
                FrameModel::Payload(rs[i].bytes),
            ]
        } else {
            Seq::<FrameModel>::empty()
        }) + spec_outbound_region_frames(rs.skip(i + 1)),
{
    assert(rs.skip(i)[0] == rs[i]);
    assert(rs.skip(i).drop_first() =~= rs.skip(i + 1));
}

/// The non-terminator preambles among a frame sequence, in order.
pub open spec fn spec_frame_preambles(fs: Seq<FrameModel>) -> Seq<AllowedRegionPreamble>
    decreases fs.len(),
{
    if fs.len() == 0 {
        Seq::<AllowedRegionPreamble>::empty()
    } else {
        (match fs[0] {
            FrameModel::Preamble(p) => if p != spec_null_preamble() {
                seq![p]
            } else {
                Seq::<AllowedRegionPreamble>::empty()
            },
            _ => Seq::<AllowedRegionPreamble>::empty(),
        }) + spec_frame_preambles(fs.drop_first())
    }
}

/// How many terminator preambles a frame sequence holds.
pub open spec fn spec_terminator_count(fs: Seq<FrameModel>) -> nat
    decreases fs.len(),
{
    if fs.len() == 0 {
        0
    } else {
        (if fs[0] == FrameModel::Preamble(spec_null_preamble()) {
            1nat
        } else {
            0nat
        }) + spec_terminator_count(fs.drop_first())
    }
}

/// The preambles of exactly the valid regions, in insertion order.
pub open spec fn spec_valid_preambles(rs: Seq<RegionModel>) -> Seq<AllowedRegionPreamble>
    decreases rs.len(),
{
    if rs.len() == 0 {
        Seq::<AllowedRegionPreamble>::empty()
    } else {
        (if rs[0].valid {
            seq![spec_region_preamble(rs[0])]
        } else {
            Seq::<AllowedRegionPreamble>::empty()
        }) + spec_valid_preambles(rs.drop_first())
    }
}

proof fn lemma_frame_preambles_add(a: Seq<FrameModel>, b: Seq<FrameModel>)
    ensures
        spec_frame_preambles(a + b) == spec_frame_preambles(a) + spec_frame_preambles(b),
    decreases a.len(),
{
    if a.len() == 0 {
        assert(a + b =~= b);
        assert(spec_frame_preambles(a) + spec_frame_preambles(b) =~= spec_frame_preambles(b));
    } else {
        assert((a + b)[0] == a[0]);
        assert((a + b).drop_first() =~= a.drop_first() + b);
        lemma_frame_preambles_add(a.drop_first(), b);
        assert(spec_frame_preambles(a + b) =~= spec_frame_preambles(a) + spec_frame_preambles(b));
    }
}

proof fn lemma_terminator_count_add(a: Seq<FrameModel>, b: Seq<FrameModel>)
    ensures
        spec_terminator_count(a + b) == spec_terminator_count(a) + spec_terminator_count(b),
    decreases a.len(),
{
    if a.len() == 0 {
        assert(a + b =~= b);
    } else {
        assert((a + b)[0] == a[0]);
        assert((a + b).drop_first() =~= a.drop_first() + b);
        lemma_terminator_count_add(a.drop_first(), b);
    }
}

/// Allow-map authority, send direction: in the outbound region list, the
/// non-terminator preambles are exactly the preambles of the valid regions,
/// in insertion order, and exactly one terminator closes the list.
pub proof fn lemma_allow_list_authority_send(rs: Seq<RegionModel>)
    requires
        forall|i: int| 0 <= i < rs.len() ==> (#[trigger] rs[i]).app_addr != 0,
    ensures
        spec_frame_preambles(spec_outbound_region_frames(rs)) == spec_valid_preambles(rs),
        spec_outbound_region_frames(rs).len() >= 1,
        spec_outbound_region_frames(rs).last() == FrameModel::Preamble(spec_null_preamble()),
        spec_terminator_count(spec_outbound_region_frames(rs)) == 1,
    decreases rs.len(),
{
    if rs.len() == 0 {
        let fs = spec_outbound_region_frames(rs);
        assert(fs =~= seq![FrameModel::Preamble(spec_null_preamble())]);
        assert(fs.drop_first() =~= Seq::<FrameModel>::empty());
        assert(spec_frame_preambles(fs.drop_first()) =~= Seq::<AllowedRegionPreamble>::empty());
        assert(spec_frame_preambles(fs) =~= spec_valid_preambles(rs));
        assert(spec_terminator_count(fs.drop_first()) == 0);
    } else {
        let head: Seq<FrameModel> = if rs[0].valid {
            seq![
                FrameModel::Preamble(spec_region_preamble(rs[0])),
                FrameModel::Payload(rs[0].bytes),
            ]
        } else {
            Seq::<FrameModel>::empty()
        };
        let rest = spec_outbound_region_frames(rs.drop_first());
        assert(forall|i: int|
            0 <= i < rs.drop_first().len() ==> (#[trigger] rs.drop_first()[i]).app_addr != 0);
        lemma_allow_list_authority_send(rs.drop_first());
        lemma_frame_preambles_add(head, rest);
        lemma_terminator_count_add(head, rest);
        if rs[0].valid {
            assert(spec_region_preamble(rs[0]).address == rs[0].app_addr);
            assert(spec_region_preamble(rs[0]) != spec_null_preamble());
            assert(head.drop_first() =~= seq![FrameModel::Payload(rs[0].bytes)]);
            assert(head.drop_first().drop_first() =~= Seq::<FrameModel>::empty());
            assert(spec_frame_preambles(head.drop_first().drop_first())
                =~= Seq::<AllowedRegionPreamble>::empty());
            assert(spec_frame_preambles(head.drop_first())
                =~= Seq::<AllowedRegionPreamble>::empty());
            assert(spec_frame_preambles(head) =~= seq![spec_region_preamble(rs[0])]);
            assert(spec_terminator_count(head.drop_first().drop_first()) == 0);
            assert(spec_terminator_count(head.drop_first()) == 0);
            assert(spec_terminator_count(head) == 0);
        } else {
            assert(spec_frame_preambles(head) =~= Seq::<AllowedRegionPreamble>::empty());
            assert(spec_terminator_count(head) == 0);
        }
        assert(spec_frame_preambles(spec_outbound_region_frames(rs)) =~= spec_valid_preambles(rs));
        assert((head + rest).last() == rest.last());
    }
}

/// Allow-map authority, receive direction: the inbound request list names
/// every region, in insertion order, and exactly one terminator closes it.
pub proof fn lemma_allow_list_authority_receive(rs: Seq<RegionModel>)
    requires
        forall|i: int| 0 <= i < rs.len() ==> (#[trigger] rs[i]).app_addr != 0,
    ensures
        spec_inbound_preambles(rs).len() == rs.len() + 1,
        forall|i: int|
            0 <= i < rs.len() ==> spec_inbound_preambles(rs)[i] == spec_region_preamble(
                #[trigger] rs[i],
            ),
        spec_inbound_preambles(rs).last() == spec_null_preamble(),
        forall|i: int| 0 <= i < rs.len() ==> spec_inbound_preambles(rs)[i] != spec_null_preamble(),
{
    assert forall|i: int| 0 <= i < rs.len() implies spec_inbound_preambles(rs)[i]
        != spec_null_preamble() by {
        assert(spec_inbound_preambles(rs)[i] == spec_region_preamble(rs[i]));
        assert(rs[i].app_addr != 0);
    };
}

/// At most one unyield exchange per process is ever in flight: opening one
/// requires that none is active and marks one active, so a second cannot
/// begin until `complete_unyield` closes the first.
pub proof fn lemma_unyield_exclusive(p: &UnixProcess)
    ensures
        p@.unyield_active ==> !p.unyield_begin_enabled(),
{
}

} // verus!
