use pingpong_audio::audio::WebAudioContext;
use pingpong_audio::{AUDIO_BUFF_SIZE, FADE_MICROS};

#[test]
fn fresh_session_state() {
    let s = WebAudioContext::new(0);
    assert_eq!(s.sample(), 0);
    assert_eq!(s.t_micros(), 0);
    assert_eq!(s.t_since_last_update_micros(), 0);
    assert_eq!(s.t_readback_micros(), 0);
    assert!(s.needs_update());
    assert_eq!(s.write_buff_idx(), 0);
    assert_eq!(s.readback_len(), AUDIO_BUFF_SIZE as usize);
    assert_eq!(s.read_readback(0), 0);
    assert_eq!(s.read_readback(AUDIO_BUFF_SIZE as usize - 1), 0);
}

#[test]
fn fresh_session_seats_sample_counter() {
    // Opened at 0.6 s of device time: 0.6 * 44100 rounds to 26460.
    let s = WebAudioContext::new(600_000);
    assert_eq!(s.sample(), 26460);
    assert_eq!(s.t_micros(), 600_000);
}

#[test]
fn advance_counts_samples_exactly() {
    let mut s = WebAudioContext::new(0);
    s.update_time(600_000);
    // round(0.6 s * 44100 Hz) = 26460
    assert_eq!(s.sample(), 26460);
    // 17 us * 44100 Hz = 0.7497 samples, rounds up to 1
    s.update_time(600_017);
    assert_eq!(s.sample(), 26461);
    // 11 us * 44100 Hz = 0.4851 samples, rounds down to 0: never decreases
    s.update_time(600_028);
    assert_eq!(s.sample(), 26461);
}

#[test]
fn due_flag_threshold() {
    // Half a block at 44100 Hz is exactly 0.5 s; the flag demands strictly more.
    let mut s = WebAudioContext::new(0);
    s.update_time(500_000);
    assert!(!s.needs_update());
    s.update_time(500_001);
    assert!(s.needs_update());
}

#[test]
fn push_resets_clock_and_toggles() {
    let mut s = WebAudioContext::new(0);
    s.update_time(600_000);
    assert!(s.needs_update());
    let _plan = s.try_push_audio(600_000);
    assert_eq!(s.t_readback_micros(), 0);
    assert_eq!(s.t_since_last_update_micros(), 0);
    assert_eq!(s.t_micros(), 600_000);
    assert!(!s.needs_update());
    assert_eq!(s.write_buff_idx(), 1);
    let _plan = s.try_push_audio(700_000);
    assert_eq!(s.write_buff_idx(), 0);
}

#[test]
fn push_stop_time_is_fade_end() {
    let mut s = WebAudioContext::new(0);
    let plan = s.try_push_audio(600_000);
    assert_eq!(plan.prev_stop_us, 600_000 + FADE_MICROS);
    assert_eq!(plan.prev_stop_us, plan.fade_end_us);
    assert!(plan.prev_stop_us > plan.now_us);
}

#[test]
fn push_snapshot_matches_readback() {
    let mut s = WebAudioContext::new(0);
    for i in 0..s.readback_len() {
        s.write_readback(i, (i as u32).wrapping_mul(2_654_435_761));
    }
    let plan = s.try_push_audio(600_000);
    assert_eq!(plan.slot, 0);
    assert_eq!(plan.data.len(), AUDIO_BUFF_SIZE as usize);
    for i in 0..plan.data.len() {
        assert_eq!(plan.data[i], (i as u32).wrapping_mul(2_654_435_761));
    }
}

#[test]
fn repeated_push_is_content_stable() {
    let mut s = WebAudioContext::new(0);
    for i in 0..s.readback_len() {
        s.write_readback(i, i as u32 + 7);
    }
    let first = s.try_push_audio(600_000);
    let second = s.try_push_audio(1_200_000);
    assert_eq!(first.data, second.data);
    assert_ne!(first.slot, second.slot);
    // A producer write between pushes does change the next snapshot.
    s.write_readback(3, 999);
    let third = s.try_push_audio(1_800_000);
    assert_ne!(second.data, third.data);
    assert_eq!(third.data[3], 999);
    assert_eq!(third.data[4], second.data[4]);
}

#[test]
fn push_uses_readback_offset() {
    let mut s = WebAudioContext::new(0);
    s.set_t_readback(123_000);
    assert_eq!(s.t_readback_micros(), 123_000);
    let plan = s.try_push_audio(600_000);
    assert_eq!(plan.start_offset_us, 600_000 - 123_000);
    assert_eq!(s.t_readback_micros(), 0);
}

#[test]
fn one_second_block_scenario() {
    // One-second blocks: 44100 samples at 44100 Hz. The session opens at
    // device time 0, the producer fills the block with a 440 Hz sine, and
    // at device time 0.6 s a tick finds the push due (0.6 > 0.5).
    let mut s = WebAudioContext::new(0);
    assert_eq!(s.sample(), 0);
    for i in 0..s.readback_len() {
        let v = (2.0 * std::f32::consts::PI * 440.0 * i as f32 / 44100.0).sin();
        s.write_readback(i, v.to_bits());
    }
    s.update_time(600_000);
    assert!(s.needs_update());
    let prev_readback = s.t_readback_micros();
    let plan = s.try_push_audio(600_000);
    // New source starts at now with offset now - previous readback point;
    // the old source stops at 0.605 s; the write index flips 0 -> 1.
    assert_eq!(plan.now_us, 600_000);
    assert_eq!(plan.start_offset_us, 600_000 - prev_readback);
    assert_eq!(plan.prev_stop_us, 605_000);
    assert_eq!(plan.slot, 0);
    assert_eq!(s.write_buff_idx(), 1);
    assert_eq!(f32::from_bits(plan.data[0]), 0.0);
    let expected = (2.0 * std::f32::consts::PI * 440.0 * 100.0 / 44100.0).sin();
    assert_eq!(f32::from_bits(plan.data[100]), expected);
}

#[test]
fn write_readback_roundtrip() {
    let mut s = WebAudioContext::new(0);
    s.write_readback(5, 77);
    assert_eq!(s.read_readback(5), 77);
    assert_eq!(s.read_readback(4), 0);
    assert_eq!(s.read_readback(6), 0);
    assert_eq!(s.readback_len(), AUDIO_BUFF_SIZE as usize);
}
