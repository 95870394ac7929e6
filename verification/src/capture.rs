//! Per-tick capture scheduling, readback completion and buffer recycling.
//!
//! Each streaming camera owns a `Capture`: the engine-side handles of its
//! render target and media sink, the configured size, and a `CapturePool` of
//! staging buffer slots. Once per render tick the scheduler claims a free
//! slot and describes the device copy to issue; the readback handler then
//! requests a host-readable mapping of the claimed slot; a background
//! delivery worker forwards the mapped bytes to the media sink and emits a
//! release signal; and a same-context drain step processes release signals
//! and frees the slots.

use vstd::prelude::*;

use crate::encoder::StreamEncoder;
use crate::pool::{spec_acquire_choice, CapturePool};
use crate::{padded_bytes_per_row, spec_padded_bytes_per_row};

verus! {

/// Number of staging buffers pre-allocated per capture target
/// (triple buffering).
pub const POOL_SLOTS: usize = 3;

/// The scheduling-relevant state of one capture target, as plain
/// mathematical values. Used only in specifications.
pub struct TargetState {
    pub enabled: bool,
    pub slots: Seq<bool>,
    pub cursor: int,
    pub skip: bool,
}

impl TargetState {
    pub open spec fn wf(self) -> bool {
        &&& 1 <= self.slots.len()
        &&& 0 <= self.cursor < self.slots.len()
    }
}

/// One render tick of the scheduler and readback handler for one target: a
/// disabled target is untouched; an enabled one whose source texture did not
/// resolve is skipped for the tick; otherwise the first free slot is claimed
/// (or the frame dropped and the skip flag set), and a readback is requested
/// exactly when a slot was claimed. Yields the new state and whether a
/// readback (and hence possibly a job) was requested this tick.
pub open spec fn spec_tick(t: TargetState, resolved: bool) -> (TargetState, bool) {
    if !t.enabled {
        (t, false)
    } else if !resolved {
        (TargetState { skip: true, ..t }, false)
    } else {
        match spec_acquire_choice(t.slots, t.cursor) {
            Some(i) => (
                TargetState {
                    slots: t.slots.update(i, true),
                    cursor: i,
                    skip: false,
                    ..t
                },
                true,
            ),
            None => (TargetState { skip: true, ..t }, false),
        }
    }
}

/// The state after `m` ticks, with how many frames were dropped (skip set by
/// an exhausted pool) and how many readbacks were requested along the way.
pub open spec fn spec_run_ticks(t: TargetState, m: nat) -> (TargetState, int, int)
    decreases m,
{
    if m == 0 {
        (t, 0, 0)
    } else {
        let (t1, requested) = spec_tick(t, true);
        let dropped: int = if t.enabled && spec_acquire_choice(t.slots, t.cursor) is None {
            1
        } else {
            0
        };
        let rest = spec_run_ticks(t1, (m - 1) as nat);
        (rest.0, dropped + rest.1, (if requested {
            1int
        } else {
            0int
        }) + rest.2)
    }
}

/// Law: while every slot of an enabled target's pool stays claimed,
/// `m` consecutive ticks find no free buffer, drop exactly `m` frames with
/// the skip flag set, and request zero readbacks — so zero readback jobs are
/// created for the target in those ticks — and leave the slots untouched.
pub proof fn lemma_exhausted_pool_drops_frames(t: TargetState, m: nat)
    requires
        t.wf(),
        t.enabled,
        forall|j: int| 0 <= j < t.slots.len() ==> t.slots[j],
    ensures
        spec_run_ticks(t, m).1 == m,
        spec_run_ticks(t, m).2 == 0,
        spec_run_ticks(t, m).0.slots == t.slots,
        spec_run_ticks(t, m).0.cursor == t.cursor,
        m > 0 ==> spec_run_ticks(t, m).0.skip,
    decreases m,
{
    if m > 0 {
        crate::pool::lemma_acquire_choice_props(t.slots, t.cursor);
        if spec_acquire_choice(t.slots, t.cursor) is Some {
            let i = spec_acquire_choice(t.slots, t.cursor).unwrap();
            assert(!t.slots[i]);
        }
        let (t1, requested) = spec_tick(t, true);
        lemma_exhausted_pool_drops_frames(t1, (m - 1) as nat);
    }
}

/// Everything the render context must know to issue one device-to-buffer
/// copy: the claimed slot, the padded row stride, and the source image
/// handle and logical size.
#[derive(Clone, Copy, Debug, PartialEq, Eq, Structural)]
pub struct CopyOp {
    pub buffer_index: usize,
    pub bytes_per_row: u64,
    pub src_image: u64,
    pub width: u32,
    pub height: u32,
}

/// One mapped staging buffer ready for the delivery worker: which sink to
/// feed and which pool slot the bytes came from.
#[derive(Clone, Copy, Debug, PartialEq, Eq, Structural)]
pub struct ReadbackJob {
    pub sink: u64,
    pub capture_index: usize,
    pub buffer_index: usize,
}

/// Emitted by the delivery worker once it has fully read a job's bytes;
/// consumed by the same-context drain step that unmaps the buffer and frees
/// the slot.
#[derive(Clone, Copy, Debug, PartialEq, Eq, Structural)]
pub struct ReleaseSignal {
    pub capture_index: usize,
    pub buffer_index: usize,
}

/// One rendering-to-stream binding: the engine-owned source image, the
/// media-sink handle, the configured size, and the pool of staging slots.
pub struct Capture {
    enabled: bool,
    src_image: u64,
    sink: u64,
    width: u32,
    height: u32,
    pool: CapturePool,
}

impl Capture {
    pub closed spec fn spec_enabled(&self) -> bool {
        self.enabled
    }

    pub closed spec fn spec_src_image(&self) -> u64 {
        self.src_image
    }

    pub closed spec fn spec_sink(&self) -> u64 {
        self.sink
    }

    pub closed spec fn spec_width(&self) -> u32 {
        self.width
    }

    pub closed spec fn spec_height(&self) -> u32 {
        self.height
    }

    pub closed spec fn pool_slots(&self) -> Seq<bool> {
        self.pool.slots()
    }

    pub closed spec fn pool_cursor(&self) -> int {
        self.pool.cursor()
    }

    pub closed spec fn pool_skipped(&self) -> bool {
        self.pool.skipped()
    }

    pub open spec fn pool_size(&self) -> int {
        self.pool_slots().len() as int
    }

    pub open spec fn wf(&self) -> bool {
        &&& 1 <= self.pool_slots().len()
        &&& 0 <= self.pool_cursor() < self.pool_slots().len()
    }

    /// The scheduling-relevant state, as plain values.
    pub open spec fn target_state(&self) -> TargetState {
        TargetState {
            enabled: self.spec_enabled(),
            slots: self.pool_slots(),
            cursor: self.pool_cursor(),
            skip: self.pool_skipped(),
        }
    }

    /// Fields that scheduling never changes.
    pub open spec fn metadata_eq(&self, other: &Capture) -> bool {
        &&& self.spec_src_image() == other.spec_src_image()
        &&& self.spec_sink() == other.spec_sink()
        &&& self.spec_width() == other.spec_width()
        &&& self.spec_height() == other.spec_height()
    }

    /// A new capture target with a fresh, fully free triple-buffer pool,
    /// enabled from the start. The staging buffers themselves are created by
    /// the render context, each of `buffer_size()` bytes.
    pub fn new(src_image: u64, width: u32, height: u32, sink: u64) -> (r: Capture)
        ensures
            r.wf(),
            r.spec_enabled(),
            r.spec_src_image() == src_image,
            r.spec_sink() == sink,
            r.spec_width() == width,
            r.spec_height() == height,
            r.pool_slots() == Seq::new(POOL_SLOTS as nat, |i: int| false),
            r.pool_cursor() == POOL_SLOTS - 1,
            !r.pool_skipped(),
    {
        Capture { enabled: true, src_image, sink, width, height, pool: CapturePool::new(POOL_SLOTS) }
    }

    /// Whether the scheduler should consider this target this tick.
    pub fn enabled(&self) -> (r: bool)
        ensures
            r == self.spec_enabled(),
    {
        self.enabled
    }

    /// Toggles capturing externally. Disabling stops new copies without
    /// destroying pooled resources; in-flight readbacks still complete and
    /// their release signals are still processed.
    pub fn set_enabled(&mut self, enabled: bool)
        ensures
            final(self).spec_enabled() == enabled,
            final(self).target_state() == (TargetState { enabled, ..old(self).target_state() }),
            final(self).metadata_eq(old(self)),
    {
        self.enabled = enabled;
    }

    /// The size in bytes of each staging buffer: one padded row per row of
    /// the source image.
    pub fn buffer_size(&self) -> (r: u64)
        requires
            spec_padded_bytes_per_row(self.spec_width() as u64) * self.spec_height() <= u64::MAX,
        ensures
            r == spec_padded_bytes_per_row(self.spec_width() as u64) * self.spec_height(),
    {
        let row = padded_bytes_per_row(self.width);
        proof {
            assert(row * self.height <= u64::MAX) by (nonlinear_arith)
                requires
                    row == spec_padded_bytes_per_row(self.spec_width() as u64),
                    spec_padded_bytes_per_row(self.spec_width() as u64) * self.spec_height()
                        <= u64::MAX,
                    row >= 0,
            ;
        }
        row * (self.height as u64)
    }

    /// One scheduler tick for this target. `texture_resolved` says whether
    /// the engine could resolve the source image to a readable texture; when
    /// it could not, the target is skipped for the whole tick — the frame is
    /// dropped, reported by the caller, not fatal. For an enabled, resolved
    /// target: claim the first free slot and describe the device copy, or —
    /// when every slot is busy — drop this frame, set the skip flag and
    /// issue nothing.
    pub fn schedule_capture(&mut self, texture_resolved: bool) -> (r: Option<CopyOp>)
        requires
            old(self).wf(),
        ensures
            final(self).wf(),
            final(self).metadata_eq(old(self)),
            final(self).spec_enabled() == old(self).spec_enabled(),
            final(self).pool_slots().len() == old(self).pool_slots().len(),
            !old(self).spec_enabled() ==> *final(self) == *old(self),
            final(self).target_state() == spec_tick(
                old(self).target_state(),
                texture_resolved,
            ).0,
            (r is Some) == spec_tick(old(self).target_state(), texture_resolved).1,
            match r {
                Some(op) => {
                    &&& spec_acquire_choice(old(self).pool_slots(), old(self).pool_cursor())
                        == Some(op.buffer_index as int)
                    &&& !old(self).pool_slots()[op.buffer_index as int]
                    &&& op.bytes_per_row == spec_padded_bytes_per_row(
                        old(self).spec_width() as u64,
                    )
                    &&& op.src_image == old(self).spec_src_image()
                    &&& op.width == old(self).spec_width()
                    &&& op.height == old(self).spec_height()
                },
                None => old(self).spec_enabled() && texture_resolved ==> forall|j: int|
                    0 <= j < old(self).pool_slots().len() ==> old(self).pool_slots()[j],
            },
    {
        if !self.enabled {
            return None;
        }
        if !texture_resolved {
            self.pool.mark_skipped();
            return None;
        }
        let stride = padded_bytes_per_row(self.width);
        match self.pool.acquire_free() {
            Some(idx) => Some(
                CopyOp {
                    buffer_index: idx,
                    bytes_per_row: stride,
                    src_image: self.src_image,
                    width: self.width,
                    height: self.height,
                },
            ),
            None => None,
        }
    }

    /// After the tick's copies were submitted: the slot whose full range the
    /// readback handler must request a host-readable mapping of — the slot
    /// just claimed — or nothing when the target is disabled or this tick's
    /// frame was dropped.
    pub fn readback_request(&self) -> (r: Option<usize>)
        requires
            self.wf(),
        ensures
            match r {
                Some(i) => self.spec_enabled() && !self.pool_skipped() && i == self.pool_cursor(),
                None => !self.spec_enabled() || self.pool_skipped(),
            },
    {
        if !self.enabled {
            return None;
        }
        if self.pool.skip() {
            return None;
        }
        Some(self.pool.current())
    }

    /// Outcome of the asynchronous mapping request for slot `buffer_index`.
    /// On success, the job handed to the delivery worker; on failure, the
    /// slot is released immediately — the dropped frame is not retried — and
    /// no job is created.
    pub fn on_map_result(&mut self, capture_index: usize, buffer_index: usize, mapped: bool) -> (r:
        Option<ReadbackJob>)
        requires
            old(self).wf(),
            buffer_index < old(self).pool_slots().len(),
        ensures
            final(self).wf(),
            final(self).metadata_eq(old(self)),
            mapped ==> *final(self) == *old(self) && r == Some(
                ReadbackJob { sink: old(self).spec_sink(), capture_index, buffer_index },
            ),
            !mapped ==> r is None && final(self).target_state() == (TargetState {
                slots: old(self).pool_slots().update(buffer_index as int, false),
                ..old(self).target_state()
            }),
    {
        if mapped {
            Some(ReadbackJob { sink: self.sink, capture_index, buffer_index })
        } else {
            self.pool.release(buffer_index);
            None
        }
    }

    /// The engine-owned handle of the render-target image this target reads.
    pub fn src_image(&self) -> (r: u64)
        ensures
            r == self.spec_src_image(),
    {
        self.src_image
    }

    /// The media-sink handle frames of this target are delivered to.
    pub fn sink(&self) -> (r: u64)
        ensures
            r == self.spec_sink(),
    {
        self.sink
    }

    /// Whether staging slot `idx` is currently claimed.
    pub fn buffer_in_use(&self, idx: usize) -> (r: bool)
        requires
            idx < self.pool_slots().len(),
        ensures
            r == self.pool_slots()[idx as int],
    {
        self.pool.slot_in_use(idx)
    }

    /// Whether the last scheduling attempt dropped its frame.
    pub fn skipped(&self) -> (r: bool)
        ensures
            r == self.pool_skipped(),
    {
        self.pool.skip()
    }

    /// The number of staging slots of this target's pool.
    pub fn pool_len(&self) -> (r: usize)
        ensures
            r == self.pool_size(),
    {
        self.pool.len()
    }

    /// Frees the slot named by a release signal, after the delivery worker
    /// has fully read it and the render context has unmapped it.
    pub fn release_slot(&mut self, buffer_index: usize)
        requires
            old(self).wf(),
            buffer_index < old(self).pool_slots().len(),
        ensures
            final(self).wf(),
            final(self).metadata_eq(old(self)),
            final(self).target_state() == (TargetState {
                slots: old(self).pool_slots().update(buffer_index as int, false),
                ..old(self).target_state()
            }),
    {
        self.pool.release(buffer_index);
    }
}

/// The delivery worker's unit of work: forward the mapped bytes of one job
/// to its media sink, then emit the release signal for the job's slot. A
/// sink failure drops the frame (logged by the caller) but the release
/// signal is still emitted, so the slot is not leaked.
pub fn deliver_frame<E: StreamEncoder>(encoder: &E, job: &ReadbackJob, frame: &[u8]) -> (r: (
    ReleaseSignal,
    bool,
))
    ensures
        r.0.capture_index == job.capture_index,
        r.0.buffer_index == job.buffer_index,
{
    let pushed = encoder.push_frame(frame);
    (
        ReleaseSignal { capture_index: job.capture_index, buffer_index: job.buffer_index },
        pushed.is_ok(),
    )
}

/// The copy this target's tick issues when a slot is claimed.
pub open spec fn spec_op_of(c: Capture) -> CopyOp {
    CopyOp {
        buffer_index: spec_acquire_choice(c.pool_slots(), c.pool_cursor()).unwrap() as usize,
        bytes_per_row: spec_padded_bytes_per_row(c.spec_width() as u64) as u64,
        src_image: c.spec_src_image(),
        width: c.spec_width(),
        height: c.spec_height(),
    }
}

/// The device copies one tick issues for the targets from index `i` on: one
/// per enabled, resolved target whose pool still has a free slot, in target
/// order.
pub open spec fn spec_schedule_ops(caps: Seq<Capture>, resolved: Seq<bool>, i: int) -> Seq<CopyOp>
    decreases caps.len() - i,
{
    if i < 0 || i >= caps.len() {
        Seq::empty()
    } else {
        let rest = spec_schedule_ops(caps, resolved, i + 1);
        if caps[i].spec_enabled() && resolved[i] && spec_acquire_choice(
            caps[i].pool_slots(),
            caps[i].pool_cursor(),
        ) is Some {
            seq![spec_op_of(caps[i])] + rest
        } else {
            rest
        }
    }
}

/// How one tick changes one target: an enabled, resolved target steps by
/// `spec_tick`; any other is left untouched. Metadata never changes.
pub open spec fn spec_tick_result(c0: Capture, c1: Capture, resolved: bool) -> bool {
    &&& c1.wf()
    &&& c1.metadata_eq(&c0)
    &&& if c0.spec_enabled() {
        c1.target_state() == spec_tick(c0.target_state(), resolved).0
    } else {
        c1 == c0
    }
}

/// One scheduler pass over every capture target: each enabled target whose
/// source texture resolved claims a slot or drops its frame, exactly as
/// `schedule_capture` does one by one, and the copies to batch into this
/// tick's single queue submission come back in target order.
pub fn schedule_captures(captures: &mut Vec<Capture>, resolved: &Vec<bool>) -> (r: Vec<CopyOp>)
    requires
        forall|i: int| 0 <= i < old(captures)@.len() ==> (#[trigger] old(captures)@[i]).wf(),
        resolved@.len() == old(captures)@.len(),
    ensures
        final(captures)@.len() == old(captures)@.len(),
        forall|i: int|
            0 <= i < old(captures)@.len() ==> spec_tick_result(
                #[trigger] old(captures)@[i],
                final(captures)@[i],
                resolved@[i],
            ),
        r@ == spec_schedule_ops(old(captures)@, resolved@, 0),
{
    let mut out: Vec<CopyOp> = Vec::new();
    let n = captures.len();
    let mut k: usize = 0;
    while k < n
        invariant
            n == old(captures)@.len(),
            resolved@.len() == old(captures)@.len(),
            captures@.len() == old(captures)@.len(),
            k <= n,
            forall|i: int| 0 <= i < old(captures)@.len() ==> (#[trigger] old(captures)@[i]).wf(),
            forall|i: int|
                k <= i < old(captures)@.len() ==> #[trigger] captures@[i] == old(captures)@[i],
            forall|i: int|
                0 <= i < k ==> spec_tick_result(
                    #[trigger] old(captures)@[i],
                    captures@[i],
                    resolved@[i],
                ),
            out@ + spec_schedule_ops(old(captures)@, resolved@, k as int) == spec_schedule_ops(
                old(captures)@,
                resolved@,
                0,
            ),
        decreases n - k,
    {
        let ghost caps0 = old(captures)@;
        let ghost out0 = out@;
        let op = captures[k].schedule_capture(resolved[k]);
        match op {
            Some(op) => {
                out.push(op);
                proof {
                    assert(seq![op] + spec_schedule_ops(caps0, resolved@, k as int + 1)
                        == spec_schedule_ops(caps0, resolved@, k as int));
                    assert(out@ + spec_schedule_ops(caps0, resolved@, k as int + 1) =~= out0
                        + spec_schedule_ops(caps0, resolved@, k as int));
                }
            },
            None => {
                proof {
                    assert(spec_schedule_ops(caps0, resolved@, k as int + 1) == spec_schedule_ops(
                        caps0,
                        resolved@,
                        k as int,
                    ));
                }
            },
        }
        k += 1;
    }
    proof {
        assert(spec_schedule_ops(old(captures)@, resolved@, n as int) == Seq::<CopyOp>::empty());
        assert(out@ =~= out@ + spec_schedule_ops(old(captures)@, resolved@, n as int));
    }
    out
}

/// The readback mappings one tick requests for the targets from index `i`
/// on: the claimed slot of each enabled target that did not drop its frame,
/// as (target index, slot index), in target order.
pub open spec fn spec_readback_requests(caps: Seq<Capture>, i: int) -> Seq<(usize, usize)>
    decreases caps.len() - i,
{
    if i < 0 || i >= caps.len() {
        Seq::empty()
    } else {
        let rest = spec_readback_requests(caps, i + 1);
        if caps[i].spec_enabled() && !caps[i].pool_skipped() {
            seq![(i as usize, caps[i].pool_cursor() as usize)] + rest
        } else {
            rest
        }
    }
}

/// One readback pass over every capture target, after the tick's copies were
/// submitted: for each enabled target that did not drop its frame, the slot
/// whose full range the render context must asynchronously map, in target
/// order. The context then polls the device once, without blocking, to drive
/// earlier mappings forward.
pub fn readback_requests(captures: &Vec<Capture>) -> (r: Vec<(usize, usize)>)
    requires
        forall|i: int| 0 <= i < captures@.len() ==> (#[trigger] captures@[i]).wf(),
    ensures
        r@ == spec_readback_requests(captures@, 0),
{
    let mut out: Vec<(usize, usize)> = Vec::new();
    let n = captures.len();
    let mut k: usize = 0;
    while k < n
        invariant
            n == captures@.len(),
            k <= n,
            forall|i: int| 0 <= i < captures@.len() ==> (#[trigger] captures@[i]).wf(),
            out@ + spec_readback_requests(captures@, k as int) == spec_readback_requests(
                captures@,
                0,
            ),
        decreases n - k,
    {
        let ghost out0 = out@;
        match captures[k].readback_request() {
            Some(buffer_index) => {
                out.push((k, buffer_index));
                proof {
                    assert(seq![(k, buffer_index)] + spec_readback_requests(
                        captures@,
                        k as int + 1,
                    ) == spec_readback_requests(captures@, k as int));
                    assert(out@ + spec_readback_requests(captures@, k as int + 1) =~= out0
                        + spec_readback_requests(captures@, k as int));
                }
            },
            None => {
                proof {
                    assert(spec_readback_requests(captures@, k as int + 1)
                        == spec_readback_requests(captures@, k as int));
                }
            },
        }
        k += 1;
    }
    proof {
        assert(spec_readback_requests(captures@, n as int) == Seq::<(usize, usize)>::empty());
        assert(out@ =~= out@ + spec_readback_requests(captures@, n as int));
    }
    out
}

/// True when some signal in `sigs` names slot `b` of capture `c`.
pub open spec fn signal_names(sigs: Seq<ReleaseSignal>, c: int, b: int) -> bool {
    exists|k: int|
        0 <= k < sigs.len() && sigs[k].capture_index == c && sigs[k].buffer_index == b
}

/// Valid signals only name existing slots of existing captures.
pub open spec fn signals_valid(sigs: Seq<ReleaseSignal>, caps: Seq<Capture>) -> bool {
    forall|k: int|
        0 <= k < sigs.len() ==> (#[trigger] sigs[k]).capture_index < caps.len()
            && sigs[k].buffer_index < caps[sigs[k].capture_index as int].pool_slots().len()
}

/// Drains the tick's pending release signals: each named slot is unmapped by
/// the render context and its in-use flag flipped back to false. Release
/// order need not match acquisition order, and signals are processed even
/// for disabled targets, so no pooled buffer is leaked.
pub fn release_mapped_buffers(captures: &mut Vec<Capture>, signals: &Vec<ReleaseSignal>)
    requires
        forall|i: int| 0 <= i < old(captures)@.len() ==> (#[trigger] old(captures)@[i]).wf(),
        signals_valid(signals@, old(captures)@),
    ensures
        final(captures)@.len() == old(captures)@.len(),
        forall|i: int|
            0 <= i < old(captures)@.len() ==> unreleased_state_eq(
                #[trigger] final(captures)@[i],
                old(captures)@[i],
            ),
        forall|i: int, b: int|
            0 <= i < old(captures)@.len() && 0 <= b < old(captures)@[i].pool_slots().len()
                ==> #[trigger] final(captures)@[i].pool_slots()[b] == (if signal_names(
                signals@,
                i,
                b,
            ) {
                false
            } else {
                old(captures)@[i].pool_slots()[b]
            }),
{
    let ghost caps0 = captures@;
    let mut k: usize = 0;
    while k < signals.len()
        invariant
            signals_valid(signals@, caps0),
            captures@.len() == caps0.len(),
            k <= signals@.len(),
            forall|i: int|
                0 <= i < caps0.len() ==> unreleased_state_eq(#[trigger] captures@[i], caps0[i]),
            forall|i: int, b: int|
                0 <= i < caps0.len() && 0 <= b < caps0[i].pool_slots().len()
                    ==> #[trigger] captures@[i].pool_slots()[b] == (if signal_names(
                    signals@.take(k as int),
                    i,
                    b,
                ) {
                    false
                } else {
                    caps0[i].pool_slots()[b]
                }),
        decreases signals@.len() - k,
    {
        let sig = signals[k];
        let ghost pre = captures@;
        let c = sig.capture_index;
        let b = sig.buffer_index;
        captures[c].release_slot(b);
        proof {
            let taken = signals@.take(k as int);
            let taken1 = signals@.take(k as int + 1);
            assert(taken1 =~= taken.push(signals@[k as int]));
            lemma_signal_names_push(taken, signals@[k as int]);
            assert(captures@[c as int].pool_slots() == pre[c as int].pool_slots().update(
                b as int,
                false,
            ));
            assert forall|i: int, bb: int|
                0 <= i < caps0.len() && 0 <= bb < caps0[i].pool_slots().len()
                    implies #[trigger] captures@[i].pool_slots()[bb] == (if signal_names(
                taken1,
                i,
                bb,
            ) {
                false
            } else {
                caps0[i].pool_slots()[bb]
            }) by {
                assert(pre[i].pool_slots()[bb] == (if signal_names(taken, i, bb) {
                    false
                } else {
                    caps0[i].pool_slots()[bb]
                }));
                if i == c as int {
                    if bb == b as int {
                        assert(captures@[i].pool_slots()[bb] == false);
                    } else {
                        assert(captures@[i].pool_slots()[bb] == pre[i].pool_slots()[bb]);
                    }
                } else {
                    assert(captures@[i] == pre[i]);
                }
            }
        }
        k += 1;
    }
    proof {
        assert(signals@.take(signals@.len() as int) =~= signals@);
    }
}

/// Everything the release drain leaves untouched of one capture.
pub open spec fn unreleased_state_eq(c1: Capture, c0: Capture) -> bool {
    &&& c1.wf()
    &&& c1.metadata_eq(&c0)
    &&& c1.spec_enabled() == c0.spec_enabled()
    &&& c1.pool_cursor() == c0.pool_cursor()
    &&& c1.pool_skipped() == c0.pool_skipped()
    &&& c1.pool_slots().len() == c0.pool_slots().len()
}

proof fn lemma_signal_names_push(sigs: Seq<ReleaseSignal>, s: ReleaseSignal)
    ensures
        forall|i: int, b: int|
            #[trigger] signal_names(sigs.push(s), i, b) <==> (signal_names(sigs, i, b) || (
            s.capture_index == i && s.buffer_index == b)),
{
    assert forall|i: int, b: int| #[trigger]
        signal_names(sigs.push(s), i, b) <==> (signal_names(sigs, i, b) || (s.capture_index == i
            && s.buffer_index == b)) by {
        let pushed = sigs.push(s);
        if signal_names(pushed, i, b) {
            let w = choose|w: int|
                0 <= w < pushed.len() && pushed[w].capture_index == i && pushed[w].buffer_index
                    == b;
            if w < sigs.len() {
                assert(pushed[w] == sigs[w]);
                assert(signal_names(sigs, i, b));
            } else {
                assert(pushed[w] == s);
            }
        }
        if signal_names(sigs, i, b) {
            let w = choose|w: int|
                0 <= w < sigs.len() && sigs[w].capture_index == i && sigs[w].buffer_index == b;
            assert(pushed[w] == sigs[w]);
            assert(signal_names(pushed, i, b));
        }
        if s.capture_index == i && s.buffer_index == b {
            assert(pushed[sigs.len() as int] == s);
            assert(signal_names(pushed, i, b));
        }
    }
}

} // verus!
