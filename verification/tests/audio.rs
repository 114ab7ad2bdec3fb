use orb_chase::audio::{Sound, SquareWave, NEUTRAL, SOUND_VOLUME, TONE_FREQUENCY, TONE_VOLUME};

#[test]
fn samples_keep_a_quarter_of_their_swing() {
    let data: Vec<u8> = vec![128, 132, 124, 0, 255, 129, 130, 131, 127, 126, 125];
    let mut sound = Sound::new(data, SOUND_VOLUME);
    let mut out = [0u8; 11];
    sound.callback(&mut out);
    assert_eq!(out, [128, 129, 127, 96, 160, 128, 129, 129, 128, 128, 127]);
    assert_eq!(sound.pos(), 11);
}

#[test]
fn sample_player_matches_the_formula_at_every_sample() {
    let data: Vec<u8> = (0..=255u8).collect();
    let mut sound = Sound::new(data, SOUND_VOLUME);
    for sample in 0..=255i32 {
        let exact: f64 = (sample as f64 - 128.0) * 0.25 + 128.0;
        assert_eq!(sound.next_sample() as f64, (exact + 0.5).floor());
    }
}

#[test]
fn sample_player_is_silent_after_its_end() {
    let mut sound = Sound::new(vec![0, 255, 0], SOUND_VOLUME);
    let mut out = [7u8; 8];
    sound.callback(&mut out);
    assert_eq!(out, [96, 160, 96, 128, 128, 128, 128, 128]);
    assert!(sound.is_exhausted());
    for round in 0..100usize {
        let mut later = [7u8; 16];
        sound.callback(&mut later);
        assert_eq!(later, [NEUTRAL; 16]);
        assert_eq!(sound.pos(), 8 + 16 * (round + 1));
        assert!(sound.is_exhausted());
    }
    assert_eq!(sound.next_sample(), NEUTRAL);
}

#[test]
fn empty_recording_is_silence() {
    let mut sound = Sound::new(Vec::new(), SOUND_VOLUME);
    assert!(sound.is_exhausted());
    assert_eq!(sound.next_sample(), 128);
    assert_eq!(sound.pos(), 1);
    let mut nothing: [u8; 0] = [];
    sound.callback(&mut nothing);
    assert_eq!(sound.pos(), 1);
}

#[test]
fn volume_scales_and_output_stays_in_range() {
    let mut full = Sound::new(vec![0, 1, 128, 254, 255], 1000);
    let mut out = [0u8; 5];
    full.callback(&mut out);
    assert_eq!(out, [0, 1, 128, 254, 255]);
    let mut mute = Sound::new(vec![0, 1, 128, 254, 255], 0);
    mute.callback(&mut out);
    assert_eq!(out, [128, 128, 128, 128, 128]);
    let mut loud = Sound::new(vec![0, 100, 127, 128, 129, 160, 255], 4000);
    let mut out = [0u8; 7];
    loud.callback(&mut out);
    assert_eq!(out, [0, 16, 124, 128, 132, 255, 255]);
    let mut loudest = Sound::new(vec![127, 128, 129], u16::MAX);
    let mut out = [0u8; 3];
    loudest.callback(&mut out);
    assert_eq!(out, [62, 128, 194]);
}

#[test]
fn tone_is_positive_through_the_first_half_cycle() {
    let mut tone = SquareWave::new(1, 4, TONE_VOLUME).unwrap();
    let mut out = [0i32; 9];
    tone.callback(&mut out);
    assert_eq!(out, [30, 30, 30, -30, 30, 30, 30, -30, 30]);
    assert_eq!(tone.phase(), 1);
}

#[test]
fn tone_flips_just_after_half_a_cycle() {
    let mut tone = SquareWave::new(1, 10, 500).unwrap();
    let mut levels: Vec<i32> = Vec::new();
    for step in 0..20u32 {
        assert_eq!(tone.phase(), step % 10);
        let level = tone.next_level();
        assert_eq!(level > 0, 2 * (step % 10) <= 10);
        levels.push(level);
    }
    assert_eq!(
        levels,
        vec![
            500, 500, 500, 500, 500, 500, -500, -500, -500, -500, 500, 500, 500, 500, 500, 500,
            -500, -500, -500, -500
        ]
    );
}

#[test]
fn tone_has_the_size_of_its_volume_at_every_sample() {
    let mut tone = SquareWave::new(TONE_FREQUENCY, 44_100, TONE_VOLUME).unwrap();
    assert_eq!(tone.volume(), 30);
    let mut out = [0i32; 4096];
    tone.callback(&mut out);
    let mut phase: u64 = 0;
    for level in out {
        assert_eq!(level.abs(), 30);
        assert_eq!(level > 0, 2 * phase <= 44_100);
        phase = (phase + 400) % 44_100;
    }
    assert_eq!(tone.phase() as u64, phase);
    assert_eq!(out[55], 30);
    assert_eq!(out[56], -30);
    assert_eq!(out[110], -30);
    assert_eq!(out[111], 30);
}

#[test]
fn tone_needs_a_sample_rate() {
    assert!(SquareWave::new(400, 0, 30).is_none());
    assert!(SquareWave::new(0, 1, 0).is_some());
}

#[test]
fn tone_wraps_with_large_pitch_and_rate() {
    let mut tone = SquareWave::new(u32::MAX, u32::MAX, u16::MAX).unwrap();
    assert_eq!(tone.next_level(), 65_535);
    assert_eq!(tone.phase(), 0);
    let mut tone = SquareWave::new(u32::MAX, u32::MAX - 1, 1).unwrap();
    assert_eq!(tone.next_level(), 1);
    assert_eq!(tone.phase(), 1);
    let mut silent = SquareWave::new(3, 4, 0).unwrap();
    assert_eq!(silent.next_level(), 0);
    assert_eq!(silent.next_level(), 0);
}
