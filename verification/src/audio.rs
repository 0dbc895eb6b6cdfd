//! The playback session: a virtual clock deciding when the next block is
//! due, and a buffer swapper that snapshots the producer's block and
//! plans the crossfaded ping-pong handoff.
//!
//! The audio output device is an external collaborator. The session never
//! touches it: `try_push_audio` returns a [`SwapPlan`] of scheduling
//! commands (which slot to fill, ramp anchor, stop time, start offset)
//! that the embedding code executes against the device, and
//! `update_time` takes the device clock reading as an argument.

use vstd::prelude::*;
use vstd::pervasive::VecAdditionalExecFns;
use crate::{AUDIO_BUFF_SIZE, SAMPLE_RATE, MICROS_PER_SEC, HALF_MICROS_PER_SEC, FADE_MICROS};
use crate::timing::{round_samples, due_after, lemma_round_samples_bounds};

verus! {

/// Mathematical model of a playback session: the virtual clock's
/// counters, the ping-pong bookkeeping, the producer's shared readback
/// block, and the sample words most recently copied into each device
/// buffer slot. Times are microseconds of the device clock.
#[verifier::ext_equal]
pub ghost struct SessionModel {
    /// Monotonic sample counter.
    pub sample: int,
    /// Device time at which the clock was last brought up to date.
    pub t: int,
    /// Accumulated device time since the last push.
    pub t_since_last_update: int,
    /// Read offset into the currently active buffer, advanced by the
    /// producer between swaps and rebased to 0 at each push.
    pub t_readback: int,
    /// Whether enough time has accumulated that a push is due.
    pub needs_update: bool,
    /// Index of the write-target (inactive) slot, 0 or 1.
    pub write_buff_idx: int,
    /// The shared block the producer overwrites in place.
    pub readback: Seq<u32>,
    /// Sample words last copied to each of the two device buffer slots.
    pub slots: Seq<Seq<u32>>,
}

impl SessionModel {
    /// Well-formedness: the counters never outrun the device clock (which
    /// is what keeps them from overflowing), the write index is a
    /// ping-pong index, and the shared block has the fixed block size.
    pub open spec fn wf(self) -> bool {
        &&& 0 <= self.sample <= self.t
        &&& 0 <= self.t_since_last_update <= self.t
        &&& 0 <= self.t_readback
        &&& self.t <= u64::MAX
        &&& (self.write_buff_idx == 0 || self.write_buff_idx == 1)
        &&& self.readback.len() == AUDIO_BUFF_SIZE
        &&& self.slots.len() == 2
    }
}

/// Mathematical model of one swap's device-facing schedule.
#[verifier::ext_equal]
pub ghost struct PlanModel {
    /// Snapshot of the producer's block, to be copied into every channel
    /// of the write-target slot.
    pub data: Seq<u32>,
    /// The slot to fill and fade in.
    pub slot: int,
    /// Device time anchoring the crossfade.
    pub now_us: int,
    /// Offset into the new source's timeline at which playback starts.
    pub start_offset_us: int,
    /// End of the fade window.
    pub fade_end_us: int,
    /// Time at which the previously active source is told to stop.
    pub prev_stop_us: int,
}

/// One block's worth of silence.
pub open spec fn silent_block() -> Seq<u32> {
    Seq::new(AUDIO_BUFF_SIZE as nat, |i: int| 0u32)
}

/// Both device buffer slots silent, as a fresh device leaves them.
pub open spec fn silent_slots() -> Seq<Seq<u32>> {
    seq![silent_block(), silent_block()]
}

/// State of a fresh session opened at device time `now_us`: the counter
/// is seated at the device clock's current sample, nothing has
/// accumulated, slot 0 is the write target, a first push is requested at
/// once, and the shared block and both device slots are silent.
pub open spec fn spec_new(now_us: int) -> SessionModel {
    SessionModel {
        sample: round_samples(now_us),
        t: now_us,
        t_since_last_update: 0,
        t_readback: 0,
        needs_update: true,
        write_buff_idx: 0,
        readback: silent_block(),
        slots: silent_slots(),
    }
}

/// The virtual clock's transition for one tick that reads device time
/// `now_us`: the elapsed delta is accumulated, the sample counter grows
/// by the delta rounded to whole samples, and the due flag is set exactly
/// when the accumulated time exceeds half a block.
pub open spec fn spec_update_time(m: SessionModel, now_us: int) -> SessionModel {
    let delta = now_us - m.t;
    SessionModel {
        sample: m.sample + round_samples(delta),
        t: now_us,
        t_since_last_update: m.t_since_last_update + delta,
        needs_update: due_after(m.t_since_last_update + delta),
        ..m
    }
}

/// The buffer swap at device time `now_us`: the plan carries a snapshot
/// of the shared block into the write-target slot, fades it in over
/// `FADE_MICROS` while the outgoing source fades out and stops exactly at
/// the fade's end, and starts the new source offset by how far the
/// readback point had advanced; the clock is rebased and the ping-pong
/// index toggles.
pub open spec fn spec_push(m: SessionModel, now_us: int) -> (SessionModel, PlanModel) {
    let plan = PlanModel {
        data: m.readback,
        slot: m.write_buff_idx,
        now_us: now_us,
        start_offset_us: now_us - m.t_readback,
        fade_end_us: now_us + FADE_MICROS,
        prev_stop_us: now_us + FADE_MICROS,
    };
    let after = SessionModel {
        t: now_us,
        t_since_last_update: 0,
        t_readback: 0,
        needs_update: false,
        write_buff_idx: 1 - m.write_buff_idx,
        slots: m.slots.update(m.write_buff_idx, m.readback),
        ..m
    };
    (after, plan)
}

/// One swap's device-facing schedule, handed to the embedding code to
/// execute: copy `data` into every channel of slot `slot`, ramp that
/// slot's gain from 0 at `now_us` to unity at `fade_end_us`, ramp the
/// other slot's gain from unity down to 0 over the same window, stop the
/// previously active source at `prev_stop_us`, and start the new source
/// at `now_us` reading from `start_offset_us` into its timeline.
pub struct SwapPlan {
    /// Snapshot of the producer's block at push time.
    pub data: Vec<u32>,
    /// Index of the slot to fill and fade in.
    pub slot: usize,
    /// Device time anchoring the crossfade, microseconds.
    pub now_us: u64,
    /// Playback start offset into the new source's timeline, microseconds.
    pub start_offset_us: u64,
    /// End of the fade window, microseconds.
    pub fade_end_us: u64,
    /// Scheduled stop time of the outgoing source, microseconds.
    pub prev_stop_us: u64,
}

impl View for SwapPlan {
    type V = PlanModel;

    open spec fn view(&self) -> PlanModel {
        PlanModel {
            data: self.data@,
            slot: self.slot as int,
            now_us: self.now_us as int,
            start_offset_us: self.start_offset_us as int,
            fade_end_us: self.fade_end_us as int,
            prev_stop_us: self.prev_stop_us as int,
        }
    }
}

/// A playback session: the virtual clock and the ping-pong buffer
/// swapper. Device handles live with the embedding code; the session
/// holds only the plain-valued state the scheduling decisions read.
pub struct WebAudioContext {
    sample: u64,
    t: u64,
    t_since_last_update: u64,
    t_readback: u64,
    needs_update: bool,
    write_buff_idx: usize,
    readback_buffer: Vec<u32>,
    slots: Ghost<Seq<Seq<u32>>>,
}

impl View for WebAudioContext {
    type V = SessionModel;

    closed spec fn view(&self) -> SessionModel {
        SessionModel {
            sample: self.sample as int,
            t: self.t as int,
            t_since_last_update: self.t_since_last_update as int,
            t_readback: self.t_readback as int,
            needs_update: self.needs_update,
            write_buff_idx: self.write_buff_idx as int,
            readback: self.readback_buffer@,
            slots: self.slots@,
        }
    }
}

/// `delta_us` microseconds rounded to the nearest whole sample count.
fn round_to_samples(delta_us: u64) -> (n: u64)
    ensures
        n == round_samples(delta_us as int),
        n <= delta_us,
{
    proof {
        lemma_round_samples_bounds(delta_us as int);
    }
    (((delta_us as u128) * (SAMPLE_RATE as u128) + (HALF_MICROS_PER_SEC as u128))
        / (MICROS_PER_SEC as u128)) as u64
}

/// Whether `t_since_last_update_us` microseconds exceed half a block.
fn is_due(t_since_last_update_us: u64) -> (b: bool)
    ensures
        b == due_after(t_since_last_update_us as int),
{
    proof {
        assert((t_since_last_update_us as int) * (2 * (SAMPLE_RATE as int))
            <= (u64::MAX as int) * (2 * (SAMPLE_RATE as int))) by (nonlinear_arith)
            requires t_since_last_update_us <= u64::MAX;
    }
    (t_since_last_update_us as u128) * (2 * (SAMPLE_RATE as u128))
        > (AUDIO_BUFF_SIZE as u128) * (MICROS_PER_SEC as u128)
}

impl WebAudioContext {
    /// Opens a session at device time `now_us`: seats the sample counter
    /// at the device clock, makes slot 0 the write target, requests a
    /// first push, and zeroes the shared readback block. Device-side
    /// setup (context, buffers, gain wiring) is the embedding code's.
    pub fn new(now_us: u64) -> (s: Self)
        ensures
            s@ == spec_new(now_us as int),
            s@.wf(),
    {
        let sample = round_to_samples(now_us);
        let mut readback_buffer: Vec<u32> = Vec::new();
        let mut i: usize = 0;
        while i < AUDIO_BUFF_SIZE as usize
            invariant
                i <= AUDIO_BUFF_SIZE,
                readback_buffer@.len() == i,
                forall|j: int| 0 <= j < i ==> readback_buffer@[j] == 0u32,
            decreases AUDIO_BUFF_SIZE as usize - i,
        {
            readback_buffer.push(0u32);
            i = i + 1;
        }
        proof {
            assert(readback_buffer@ =~= silent_block());
        }
        WebAudioContext {
            sample,
            t: now_us,
            t_since_last_update: 0,
            t_readback: 0,
            needs_update: true,
            write_buff_idx: 0,
            readback_buffer,
            slots: Ghost(silent_slots()),
        }
    }

    /// One scheduler tick of the virtual clock, fed the device clock's
    /// current reading (the device's own transport, not a local timer).
    /// Accumulates the elapsed delta, advances the monotonic sample
    /// counter by exactly the delta rounded to whole samples, and raises
    /// the due flag exactly when the accumulated time exceeds half a
    /// block — the headroom that leaves the producer half a block of
    /// wall-clock time to finish writing.
    pub fn update_time(&mut self, now_us: u64)
        requires
            old(self)@.wf(),
            old(self)@.t <= now_us,
        ensures
            final(self)@ == spec_update_time(old(self)@, now_us as int),
            final(self)@.wf(),
            final(self)@.sample
                == old(self)@.sample + round_samples(now_us - old(self)@.t),
            old(self)@.sample <= final(self)@.sample,
            final(self)@.needs_update
                <==> due_after(final(self)@.t_since_last_update),
    {
        let delta = now_us - self.t;
        self.t_since_last_update = self.t_since_last_update + delta;
        self.t = now_us;
        self.sample = self.sample + round_to_samples(delta);
        self.needs_update = is_due(self.t_since_last_update);
    }

    /// Pushes the current contents of the shared readback block: takes a
    /// full snapshot (so producer writes after this call cannot tear an
    /// in-flight swap), rebases the clock to `now_us`, clears the due
    /// flag, toggles the ping-pong index, and returns the crossfade
    /// schedule for the embedding code to execute. The outgoing source is
    /// stopped exactly at the fade's end — never at `now_us`, which would
    /// truncate its tail — and the new source starts offset by how far
    /// the readback point had advanced, so a slightly late push resumes
    /// from the correct sample instead of jumping back in time.
    pub fn try_push_audio(&mut self, now_us: u64) -> (plan: SwapPlan)
        requires
            old(self)@.wf(),
            old(self)@.t <= now_us,
            old(self)@.t_readback <= now_us,
            now_us + FADE_MICROS <= u64::MAX,
        ensures
            final(self)@ == spec_push(old(self)@, now_us as int).0,
            plan@ == spec_push(old(self)@, now_us as int).1,
            final(self)@.wf(),
            final(self)@.t_readback == 0,
            final(self)@.t_since_last_update == 0,
            !final(self)@.needs_update,
            final(self)@.write_buff_idx == 1 - old(self)@.write_buff_idx,
            plan@.data == old(self)@.readback,
            plan@.prev_stop_us == now_us + FADE_MICROS,
            plan@.prev_stop_us == plan@.fade_end_us,
    {
        let mut data: Vec<u32> = Vec::new();
        let n = self.readback_buffer.len();
        let mut i: usize = 0;
        while i < n
            invariant
                i <= n,
                n == self.readback_buffer@.len(),
                data@ == self.readback_buffer@.subrange(0, i as int),
            decreases n - i,
        {
            data.push(self.readback_buffer[i]);
            i = i + 1;
        }
        proof {
            assert(data@ =~= self.readback_buffer@);
        }
        let slot = self.write_buff_idx;
        self.slots = Ghost(self.slots@.update(slot as int, data@));
        self.write_buff_idx = 1 - self.write_buff_idx;
        self.t_since_last_update = 0;
        self.t = now_us;
        let start_offset_us = now_us - self.t_readback;
        self.t_readback = 0;
        self.needs_update = false;
        SwapPlan {
            data,
            slot,
            now_us,
            start_offset_us,
            fade_end_us: now_us + FADE_MICROS,
            prev_stop_us: now_us + FADE_MICROS,
        }
    }

    /// The producer overwrites one sample of the shared readback block in
    /// place; nothing else of the session changes.
    pub fn write_readback(&mut self, idx: usize, value: u32)
        requires
            idx < old(self)@.readback.len(),
        ensures
            final(self)@ == (SessionModel {
                readback: old(self)@.readback.update(idx as int, value),
                ..old(self)@
            }),
            old(self)@.wf() ==> final(self)@.wf(),
    {
        self.readback_buffer.set(idx, value);
    }

    /// One sample of the shared readback block.
    pub fn read_readback(&self, idx: usize) -> (value: u32)
        requires
            idx < self@.readback.len(),
        ensures
            value == self@.readback[idx as int],
    {
        self.readback_buffer[idx]
    }

    /// Length of the shared readback block.
    pub fn readback_len(&self) -> (n: usize)
        ensures
            n == self@.readback.len(),
    {
        self.readback_buffer.len()
    }

    /// The producer advances the read offset into the active buffer; it
    /// only ever moves forward between swaps.
    pub fn set_t_readback(&mut self, t_readback_us: u64)
        requires
            old(self)@.t_readback <= t_readback_us,
        ensures
            final(self)@ == (SessionModel {
                t_readback: t_readback_us as int,
                ..old(self)@
            }),
            old(self)@.wf() ==> final(self)@.wf(),
    {
        self.t_readback = t_readback_us;
    }

    /// The monotonic sample counter.
    pub fn sample(&self) -> (n: u64)
        ensures
            n == self@.sample,
    {
        self.sample
    }

    /// Device time at the last tick or push, microseconds.
    pub fn t_micros(&self) -> (t: u64)
        ensures
            t == self@.t,
    {
        self.t
    }

    /// Accumulated device time since the last push, microseconds.
    pub fn t_since_last_update_micros(&self) -> (t: u64)
        ensures
            t == self@.t_since_last_update,
    {
        self.t_since_last_update
    }

    /// The current read offset into the active buffer, microseconds.
    pub fn t_readback_micros(&self) -> (t: u64)
        ensures
            t == self@.t_readback,
    {
        self.t_readback
    }

    /// Whether a push is due.
    pub fn needs_update(&self) -> (b: bool)
        ensures
            b == self@.needs_update,
    {
        self.needs_update
    }

    /// Index of the current write-target slot.
    pub fn write_buff_idx(&self) -> (i: usize)
        ensures
            i == self@.write_buff_idx,
    {
        self.write_buff_idx
    }
}

/// Content stability under repeated push: pushing twice with no producer
/// write in between plans identical sample data both times, and leaves
/// both device buffer slots holding exactly that block.
pub proof fn lemma_push_content_stable(m: SessionModel, now1_us: int, now2_us: int)
    requires
        m.wf(),
    ensures
        spec_push(m, now1_us).1.data == spec_push(spec_push(m, now1_us).0, now2_us).1.data,
        spec_push(spec_push(m, now1_us).0, now2_us).0.slots[0] == m.readback,
        spec_push(spec_push(m, now1_us).0, now2_us).0.slots[1] == m.readback,
{
    let m1 = spec_push(m, now1_us).0;
    let m2 = spec_push(m1, now2_us).0;
    assert(m1.readback == m.readback);
    assert(m2.slots[0] == m.readback);
    assert(m2.slots[1] == m.readback);
}

} // verus!
