use orb_chase::geometry::Color;
use orb_chase::timers::{
    EffectState, TimerReport, FADE_FULL, SESSION_TICKS, TICKS_PER_SECOND, TONE_TICKS,
};

#[test]
fn counters_start_full() {
    let state = EffectState::new();
    assert_eq!(state.fade(), 0);
    assert_eq!(state.tone_countdown(), TONE_TICKS);
    assert_eq!(state.session_countdown(), SESSION_TICKS);
    assert_eq!(state.display_color(), Color { r: 255, g: 0, b: 0, a: 255 });
    assert_eq!(SESSION_TICKS, 60 * TICKS_PER_SECOND);
}

#[test]
fn session_countdown_runs_out_after_3600_ticks() {
    let mut state = EffectState::new();
    for tick in 1..=3599u32 {
        let report = state.advance();
        assert!(!report.time_up);
        assert_eq!(state.session_countdown(), 3600 - tick);
        assert!(state.session_countdown() > 0);
    }
    let report = state.advance();
    assert!(report.time_up);
    assert_eq!(report.second_mark, Some(0));
    assert_eq!(state.session_countdown(), 0);
}

#[test]
fn counters_at_zero_stay_there() {
    let mut state = EffectState::new();
    for _ in 0..3600 {
        state.advance();
    }
    for _ in 0..3 {
        let report = state.advance();
        assert_eq!(report, TimerReport { tone_over: true, time_up: true, second_mark: None });
        assert_eq!(state.session_countdown(), 0);
        assert_eq!(state.tone_countdown(), 0);
        assert_eq!(state.fade(), FADE_FULL);
    }
}

#[test]
fn each_whole_second_is_reported_once() {
    let mut state = EffectState::new();
    let mut marks: Vec<u32> = Vec::new();
    for tick in 1..=3600u32 {
        let report = state.advance();
        match report.second_mark {
            Some(second) => {
                assert_eq!(tick % 60, 0);
                assert_eq!(second, 60 - tick / 60);
                marks.push(second);
            }
            None => assert_ne!(tick % 60, 0),
        }
    }
    let expected: Vec<u32> = (0..60u32).rev().collect();
    assert_eq!(marks, expected);
}

#[test]
fn fade_is_full_after_a_hundred_ticks() {
    let mut state = EffectState::new();
    for tick in 1..=100u32 {
        assert!(state.fade() < FADE_FULL);
        state.advance();
        assert_eq!(state.fade(), tick);
        assert_eq!(state.display_color(), Color { r: (255 * (tick - 1) / 100) as u8, g: 0, b: 0, a: 0 });
    }
    assert_eq!(state.fade(), FADE_FULL);
    assert_eq!(state.display_color(), Color { r: 252, g: 0, b: 0, a: 0 });
    state.advance();
    assert_eq!(state.fade(), FADE_FULL);
    assert_eq!(state.display_color(), Color { r: 252, g: 0, b: 0, a: 0 });
}

#[test]
fn fade_colours_round_down() {
    let mut state = EffectState::new();
    state.advance();
    assert_eq!(state.display_color(), Color { r: 0, g: 0, b: 0, a: 0 });
    state.advance();
    assert_eq!(state.display_color(), Color { r: 2, g: 0, b: 0, a: 0 });
    for _ in 0..49 {
        state.advance();
    }
    assert_eq!(state.fade(), 51);
    assert_eq!(state.display_color(), Color { r: 127, g: 0, b: 0, a: 0 });
}

#[test]
fn collision_colour_shows_once_the_fade_is_full() {
    let mut state = EffectState::new();
    let drawn = Color { r: 9, g: 8, b: 7, a: 0 };
    state.collide(drawn);
    assert_eq!(state.display_color(), drawn);
    state.advance();
    assert_eq!(state.display_color(), Color { r: 0, g: 0, b: 0, a: 0 });
    for _ in 0..99 {
        state.advance();
    }
    state.collide(drawn);
    state.advance();
    assert_eq!(state.display_color(), drawn);
}

#[test]
fn tone_lasts_five_ticks() {
    let mut state = EffectState::new();
    for left in (0..5u32).rev() {
        let report = state.advance();
        assert!(!report.tone_over);
        assert_eq!(state.tone_countdown(), left);
    }
    for _ in 0..3 {
        let report = state.advance();
        assert!(report.tone_over);
        assert_eq!(state.tone_countdown(), 0);
    }
    state.collide(Color { r: 1, g: 1, b: 1, a: 0 });
    assert_eq!(state.tone_countdown(), TONE_TICKS);
    let report = state.advance();
    assert_eq!(report, TimerReport { tone_over: false, time_up: false, second_mark: None });
    assert_eq!(state.tone_countdown(), 4);
}
