//! Virtual-clock arithmetic: rounding device-time deltas to whole samples,
//! the "due" threshold that triggers a buffer swap, and the linear
//! crossfade envelope that masks the swap.
//!
//! All quantities are integers: device time in microseconds, gain values
//! in millionths of unity.

use vstd::prelude::*;
use crate::{AUDIO_BUFF_SIZE, SAMPLE_RATE, MICROS_PER_SEC, HALF_MICROS_PER_SEC, FADE_MICROS,
    UNITY_GAIN_PPM};

verus! {

/// The number of whole samples that a device-time delta of `delta_us`
/// microseconds covers, rounded to the nearest sample (half rounds up).
pub open spec fn round_samples(delta_us: int) -> int {
    (delta_us * (SAMPLE_RATE as int) + (HALF_MICROS_PER_SEC as int)) / (MICROS_PER_SEC as int)
}

/// Whether `t_since_last_update_us` microseconds of accumulated time
/// exceed half a block's duration, `AUDIO_BUFF_SIZE / (2 * SAMPLE_RATE)`
/// seconds. Stated cross-multiplied so the comparison is exact.
pub open spec fn due_after(t_since_last_update_us: int) -> bool {
    t_since_last_update_us * (2 * (SAMPLE_RATE as int))
        > (AUDIO_BUFF_SIZE as int) * (MICROS_PER_SEC as int)
}

/// Gain of the incoming (newly pushed) source at instant `t_us`, in
/// millionths of unity, for a fade window starting at `now_us`: a linear
/// ramp from 0 at `now_us` to unity at `now_us + FADE_MICROS`.
pub open spec fn gain_incoming_ppm(now_us: int, t_us: int) -> int {
    (t_us - now_us) * (UNITY_GAIN_PPM as int) / (FADE_MICROS as int)
}

/// Gain of the outgoing (previously active) source at instant `t_us`, in
/// millionths of unity: a linear ramp from unity at `now_us` down to 0 at
/// `now_us + FADE_MICROS`.
pub open spec fn gain_outgoing_ppm(now_us: int, t_us: int) -> int {
    (now_us + (FADE_MICROS as int) - t_us) * (UNITY_GAIN_PPM as int) / (FADE_MICROS as int)
}

/// Rounding a nonnegative delta to samples never goes negative and never
/// yields more samples than there are microseconds in the delta (the
/// sample rate is far below one sample per microsecond), which is what
/// keeps the session's counters from overflowing.
pub proof fn lemma_round_samples_bounds(delta_us: int)
    requires
        0 <= delta_us,
    ensures
        0 <= round_samples(delta_us) <= delta_us,
{
    assert(0 <= (delta_us * (SAMPLE_RATE as int) + (HALF_MICROS_PER_SEC as int))
        / (MICROS_PER_SEC as int) <= delta_us) by (nonlinear_arith)
        requires 0 <= delta_us;
}

/// The "due" threshold in microseconds: with the block size and sample
/// rate used here, half a block lasts exactly half a second.
pub proof fn lemma_due_threshold_micros(t_since_last_update_us: int)
    ensures
        due_after(t_since_last_update_us) <==> t_since_last_update_us > 500_000,
{
    assert(t_since_last_update_us * (2 * (SAMPLE_RATE as int))
        > (AUDIO_BUFF_SIZE as int) * (MICROS_PER_SEC as int)
        <==> t_since_last_update_us > 500_000) by (nonlinear_arith);
}

/// Linear crossfade sums to unity: at every instant strictly inside the
/// fade window, the incoming and outgoing gains total exactly one, and
/// each lies strictly between silence and unity.
pub proof fn lemma_crossfade_unity(now_us: int, t_us: int)
    requires
        now_us < t_us < now_us + FADE_MICROS,
    ensures
        gain_incoming_ppm(now_us, t_us) + gain_outgoing_ppm(now_us, t_us)
            == UNITY_GAIN_PPM,
        0 < gain_incoming_ppm(now_us, t_us) < UNITY_GAIN_PPM,
        0 < gain_outgoing_ppm(now_us, t_us) < UNITY_GAIN_PPM,
{
    let d = t_us - now_us;
    lemma_gain_ramp_exact(d);
    lemma_gain_ramp_exact((FADE_MICROS as int) - d);
}

/// The fade envelope's endpoints: the incoming gain rises from 0 to
/// unity over the window while the outgoing gain falls from unity to 0.
pub proof fn lemma_fade_endpoints(now_us: int)
    ensures
        gain_incoming_ppm(now_us, now_us) == 0,
        gain_incoming_ppm(now_us, now_us + FADE_MICROS) == UNITY_GAIN_PPM,
        gain_outgoing_ppm(now_us, now_us) == UNITY_GAIN_PPM,
        gain_outgoing_ppm(now_us, now_us + FADE_MICROS) == 0,
{
    lemma_gain_ramp_exact(0);
    lemma_gain_ramp_exact(FADE_MICROS as int);
}

/// Within the fade window the incoming gain never falls and the outgoing
/// gain never rises.
pub proof fn lemma_fade_monotone(now_us: int, t1_us: int, t2_us: int)
    requires
        now_us <= t1_us <= t2_us <= now_us + FADE_MICROS,
    ensures
        gain_incoming_ppm(now_us, t1_us) <= gain_incoming_ppm(now_us, t2_us),
        gain_outgoing_ppm(now_us, t1_us) >= gain_outgoing_ppm(now_us, t2_us),
{
    lemma_gain_ramp_exact(t1_us - now_us);
    lemma_gain_ramp_exact(t2_us - now_us);
    lemma_gain_ramp_exact((FADE_MICROS as int) - (t1_us - now_us));
    lemma_gain_ramp_exact((FADE_MICROS as int) - (t2_us - now_us));
}

/// The incoming source's scheduled gain at `t_us`, in millionths of
/// unity, for a fade window starting at `now_us`.
pub fn gain_incoming_ppm_at(now_us: u64, t_us: u64) -> (g: u64)
    requires
        now_us <= t_us <= now_us + FADE_MICROS,
        now_us + FADE_MICROS <= u64::MAX,
    ensures
        g == gain_incoming_ppm(now_us as int, t_us as int),
        0 <= g <= UNITY_GAIN_PPM,
{
    let d = t_us - now_us;
    proof {
        lemma_gain_ramp_exact(d as int);
    }
    d * UNITY_GAIN_PPM / FADE_MICROS
}

/// The outgoing source's scheduled gain at `t_us`, in millionths of
/// unity, for a fade window starting at `now_us`.
pub fn gain_outgoing_ppm_at(now_us: u64, t_us: u64) -> (g: u64)
    requires
        now_us <= t_us <= now_us + FADE_MICROS,
        now_us + FADE_MICROS <= u64::MAX,
    ensures
        g == gain_outgoing_ppm(now_us as int, t_us as int),
        0 <= g <= UNITY_GAIN_PPM,
{
    let d = now_us + FADE_MICROS - t_us;
    proof {
        lemma_gain_ramp_exact(d as int);
    }
    d * UNITY_GAIN_PPM / FADE_MICROS
}

/// The fade length divides the unity gain evenly, so the ramp value at
/// `d` microseconds into the window is exactly `d` times the per-step
/// increment, with no division remainder.
proof fn lemma_gain_ramp_exact(d: int)
    ensures
        d * (UNITY_GAIN_PPM as int) / (FADE_MICROS as int) == d * 200,
{
    assert(d * (UNITY_GAIN_PPM as int) == (d * 200) * (FADE_MICROS as int))
        by (nonlinear_arith);
    assert((d * 200) * (FADE_MICROS as int) / (FADE_MICROS as int) == d * 200)
        by (nonlinear_arith);
}

} // verus!

