use orb_chase::geometry::{Arena, BoundingBox, Color};
use orb_chase::orb::Orb;
use orb_chase::player::Player;
use orb_chase::random::Draws;
use orb_chase::score::{ScoreTracker, Verdict};
use orb_chase::session::{Frame, Input, Phase, Session, TickReport, ToneCommand};
use orb_chase::timers::EffectState;

const IDLE: Input = Input { up: false, left: false, down: false, right: false, quit: false };
const DRAWS: Draws = Draws { red: 10, green: 20, blue: 30, x: 700, y: 500 };

fn arena() -> Arena {
    Arena { width: 800, height: 600 }
}

fn running(high_score: u32) -> Session {
    let mut session = Session::new(arena(), high_score).unwrap();
    assert!(session.start());
    session
}

#[test]
fn session_starts_loaded_with_player_at_centre() {
    let session = Session::new(arena(), 42).unwrap();
    assert_eq!(session.phase(), Phase::Loading);
    assert_eq!(session.arena(), arena());
    assert_eq!(session.player().position(), (400, 300));
    assert_eq!(session.player().speed(), 10);
    assert_eq!(session.orb().position(), (200, 200));
    assert_eq!(session.scores().score(), 0);
    assert_eq!(session.scores().high_score(), 42);
    assert_eq!(session.effects().session_countdown(), 3600);
}

#[test]
fn session_needs_room_for_the_player_at_the_centre() {
    assert!(Session::new(Arena { width: 254, height: 600 }, 0).is_none());
    assert!(Session::new(Arena { width: 800, height: 254 }, 0).is_none());
    assert!(Session::new(Arena { width: 100, height: 100 }, 0).is_none());
    let smallest = Session::new(Arena { width: 255, height: 255 }, 0).unwrap();
    assert_eq!(smallest.player().position(), (127, 127));
}

#[test]
fn only_a_loaded_session_starts() {
    let mut session = Session::new(arena(), 0).unwrap();
    assert!(session.start());
    assert_eq!(session.phase(), Phase::Running);
    assert!(!session.start());
    assert_eq!(session.phase(), Phase::Running);
}

#[test]
fn a_session_that_is_not_running_does_not_tick() {
    let mut session = Session::new(arena(), 0).unwrap();
    let held = Input { left: true, ..IDLE };
    let report = session.tick_with(held, DRAWS);
    assert_eq!(
        report,
        TickReport { phase: Phase::Loading, tone: ToneCommand::Keep, second_mark: None, frame: None }
    );
    assert_eq!(session.player().position(), (400, 300));
    assert_eq!(session.effects().session_countdown(), 3600);
    assert_eq!(session.finish(), None);
    assert_eq!(session.phase(), Phase::Loading);
}

#[test]
fn held_keys_move_the_player() {
    let mut session = running(0);
    session.tick_with(Input { left: true, ..IDLE }, DRAWS);
    assert_eq!(session.player().position(), (390, 300));
    session.tick_with(Input { up: true, right: true, ..IDLE }, DRAWS);
    assert_eq!(session.player().position(), (400, 290));
    session.tick_with(Input { down: true, ..IDLE }, DRAWS);
    assert_eq!(session.player().position(), (400, 300));
    session.tick_with(Input { left: true, right: true, up: true, down: true, ..IDLE }, DRAWS);
    assert_eq!(session.player().position(), (400, 300));
}

#[test]
fn opposite_keys_at_an_edge_move_away_from_it() {
    let player = Player::new(arena(), 0, 472, 10).unwrap();
    let mut session = Session::with_parts(
        player,
        Orb::new(700, 40),
        ScoreTracker::new(0),
        EffectState::new(),
    );
    session.tick_with(Input { left: true, right: true, up: true, down: true, ..IDLE }, DRAWS);
    assert_eq!(session.player().position(), (10, 462));
    let player = Player::new(arena(), 672, 0, 10).unwrap();
    let mut session = Session::with_parts(
        player,
        Orb::new(40, 500),
        ScoreTracker::new(0),
        EffectState::new(),
    );
    session.tick_with(Input { left: true, right: true, up: true, down: true, ..IDLE }, DRAWS);
    assert_eq!(session.player().position(), (672, 0));
}

#[test]
fn first_tick_draws_a_black_frame() {
    let mut session = running(0);
    let report = session.tick_with(IDLE, DRAWS);
    assert_eq!(report.phase, Phase::Running);
    assert_eq!(report.tone, ToneCommand::Keep);
    assert_eq!(report.second_mark, None);
    let frame = report.frame.unwrap();
    assert_eq!(
        frame,
        Frame {
            background: Color { r: 0, g: 0, b: 0, a: 255 },
            player: BoundingBox { x: 400, y: 300, width: 128, height: 128 },
            orb: BoundingBox { x: 200, y: 200, width: 32, height: 32 },
            fill: Color { r: 0, g: 0, b: 0, a: 0 },
        }
    );
    assert_eq!(frame.rectangles(), vec![frame.player, frame.orb]);
}

#[test]
fn touching_the_orb_scores_and_moves_it() {
    let mut session = running(0);
    let held = Input { up: true, left: true, ..IDLE };
    for tick in 1..=16u32 {
        let report = session.tick_with(held, DRAWS);
        assert_eq!(session.scores().score(), 0);
        assert_eq!(session.orb().position(), (200, 200));
        let expected = if tick <= 5 { ToneCommand::Keep } else { ToneCommand::Pause };
        assert_eq!(report.tone, expected);
    }
    assert_eq!(session.player().position(), (240, 140));
    let report = session.tick_with(held, DRAWS);
    assert_eq!(session.player().position(), (230, 130));
    assert_eq!(session.scores().score(), 1);
    assert_eq!(session.orb().position(), (700, 500));
    assert_eq!(report.tone, ToneCommand::Resume);
    assert_eq!(session.effects().tone_countdown(), 4);
    let frame = report.frame.unwrap();
    assert_eq!(frame.orb, BoundingBox { x: 700, y: 500, width: 32, height: 32 });
    assert_eq!(frame.player, BoundingBox { x: 230, y: 130, width: 128, height: 128 });
    assert_eq!(frame.fill, Color { r: 40, g: 0, b: 0, a: 0 });
    for _ in 0..4 {
        let report = session.tick_with(IDLE, DRAWS);
        assert_eq!(report.tone, ToneCommand::Keep);
        assert_eq!(session.scores().score(), 1);
    }
    let report = session.tick_with(IDLE, DRAWS);
    assert_eq!(report.tone, ToneCommand::Pause);
}

#[test]
fn collision_colour_is_shown_after_the_fade() {
    let mut session = running(0);
    for _ in 0..100 {
        session.tick_with(IDLE, DRAWS);
    }
    assert_eq!(session.effects().display_color(), Color { r: 252, g: 0, b: 0, a: 0 });
    let held = Input { up: true, left: true, ..IDLE };
    let mut last = session.tick_with(held, DRAWS);
    while session.scores().score() == 0 {
        last = session.tick_with(held, DRAWS);
    }
    assert_eq!(last.frame.unwrap().fill, Color { r: 10, g: 20, b: 30, a: 0 });
    assert_eq!(session.effects().display_color(), Color { r: 10, g: 20, b: 30, a: 0 });
}

#[test]
fn collision_at_the_largest_score_starts_again_from_zero() {
    let player = Player::new(arena(), 150, 150, 10).unwrap();
    let mut session = Session::with_parts(
        player,
        Orb::new(200, 200),
        ScoreTracker::resume(u32::MAX, 5),
        EffectState::new(),
    );
    let report = session.tick_with(IDLE, DRAWS);
    assert_eq!(report.tone, ToneCommand::Resume);
    assert_eq!(session.scores().score(), 0);
    assert_eq!(session.scores().high_score(), 5);
}

#[test]
fn every_tick_with_the_boxes_overlapping_scores() {
    let player = Player::new(arena(), 150, 150, 10).unwrap();
    let mut session = Session::with_parts(
        player,
        Orb::new(200, 200),
        ScoreTracker::new(0),
        EffectState::new(),
    );
    let near = Draws { red: 1, green: 1, blue: 1, x: 160, y: 160 };
    for n in 1..=50u32 {
        session.tick_with(IDLE, near);
        assert_eq!(session.scores().score(), n);
        assert_eq!(session.orb().position(), (160, 160));
    }
}

#[test]
fn quitting_ends_the_session_after_the_move() {
    let mut session = running(42);
    let report = session.tick_with(Input { right: true, quit: true, ..IDLE }, DRAWS);
    assert_eq!(
        report,
        TickReport { phase: Phase::Ending, tone: ToneCommand::Keep, second_mark: None, frame: None }
    );
    assert_eq!(session.phase(), Phase::Ending);
    assert_eq!(session.player().position(), (410, 300));
    assert_eq!(session.effects().session_countdown(), 3600);
    let again = session.tick_with(IDLE, DRAWS);
    assert_eq!(again.phase, Phase::Ending);
    assert_eq!(again.frame, None);
    assert_eq!(
        session.finish(),
        Some((Verdict::GameOver { score: 0, high_score: 42 }, None))
    );
    assert_eq!(session.phase(), Phase::Terminated);
    assert_eq!(session.finish(), None);
    assert!(!session.start());
}

#[test]
fn session_ends_when_its_time_has_run_out() {
    let mut session = running(0);
    for tick in 1..=3599u32 {
        let report = session.tick_with(IDLE, DRAWS);
        assert_eq!(report.phase, Phase::Running);
        assert!(report.frame.is_some());
        let expected = if tick % 60 == 0 { Some(60 - tick / 60) } else { None };
        assert_eq!(report.second_mark, expected);
        assert_eq!(session.effects().session_countdown(), 3600 - tick);
        assert_eq!(session.phase(), Phase::Running);
    }
    let report = session.tick_with(IDLE, DRAWS);
    assert_eq!(
        report,
        TickReport {
            phase: Phase::Ending,
            tone: ToneCommand::Pause,
            second_mark: Some(0),
            frame: None,
        }
    );
    assert_eq!(session.effects().session_countdown(), 0);
    assert_eq!(session.phase(), Phase::Ending);
    let later = session.tick_with(Input { left: true, ..IDLE }, DRAWS);
    assert_eq!(
        later,
        TickReport { phase: Phase::Ending, tone: ToneCommand::Keep, second_mark: None, frame: None }
    );
    assert_eq!(session.player().position(), (400, 300));
}

#[test]
fn last_tick_of_a_session_still_scores() {
    let mut effects = EffectState::new();
    for _ in 0..3599 {
        effects.advance();
    }
    assert_eq!(effects.session_countdown(), 1);
    let player = Player::new(arena(), 150, 150, 10).unwrap();
    let mut session =
        Session::with_parts(player, Orb::new(200, 200), ScoreTracker::resume(42, 42), effects);
    let report = session.tick_with(IDLE, DRAWS);
    assert_eq!(report.phase, Phase::Ending);
    assert_eq!(report.tone, ToneCommand::Resume);
    assert_eq!(report.frame, None);
    assert_eq!(session.scores().score(), 43);
    let idle = session.tick_with(IDLE, DRAWS);
    assert_eq!(idle.phase, Phase::Ending);
    assert_eq!(session.scores().score(), 43);
    let (verdict, stored) = session.finish().unwrap();
    assert_eq!(verdict, Verdict::NewHighScore { score: 43 });
    assert_eq!(stored, Some(b"43".to_vec()));
}

#[test]
fn a_running_session_with_no_time_left_ends_at_once() {
    let mut effects = EffectState::new();
    for _ in 0..3600 {
        effects.advance();
    }
    let player = Player::new(arena(), 400, 300, 10).unwrap();
    let mut session =
        Session::with_parts(player, Orb::new(200, 200), ScoreTracker::new(0), effects);
    let report = session.tick_with(IDLE, DRAWS);
    assert_eq!(
        report,
        TickReport { phase: Phase::Ending, tone: ToneCommand::Pause, second_mark: None, frame: None }
    );
}

#[test]
fn finished_session_with_higher_score_stores_it() {
    let player = Player::new(arena(), 400, 300, 10).unwrap();
    let mut session = Session::with_parts(
        player,
        Orb::new(200, 200),
        ScoreTracker::resume(50, 42),
        EffectState::new(),
    );
    session.tick_with(Input { quit: true, ..IDLE }, DRAWS);
    let (verdict, stored) = session.finish().unwrap();
    assert_eq!(verdict, Verdict::NewHighScore { score: 50 });
    assert_eq!(stored, Some(b"50".to_vec()));
    assert_eq!(session.scores().high_score(), 50);
}

#[test]
fn finished_session_without_a_higher_score_stores_nothing() {
    for score in [0u32, 41, 42] {
        let player = Player::new(arena(), 400, 300, 10).unwrap();
        let mut session = Session::with_parts(
            player,
            Orb::new(200, 200),
            ScoreTracker::resume(score, 42),
            EffectState::new(),
        );
        session.tick_with(Input { quit: true, ..IDLE }, DRAWS);
        let (verdict, stored) = session.finish().unwrap();
        assert_eq!(verdict, Verdict::GameOver { score, high_score: 42 });
        assert_eq!(stored, None);
        assert_eq!(session.scores().high_score(), 42);
    }
}

#[test]
fn player_stays_inside_through_a_whole_session() {
    let mut session = running(0);
    let mut tick: u32 = 0;
    while session.phase() == Phase::Running {
        let phase = (tick / 90) % 4;
        let held = Input {
            up: phase == 0,
            right: phase == 0 || phase == 1,
            down: phase == 2,
            left: phase == 2 || phase == 3,
            quit: false,
        };
        session.tick(held);
        let (x, y) = session.player().position();
        assert!(0 <= x && x <= 672);
        assert!(0 <= y && y <= 472);
        tick += 1;
    }
    assert_eq!(tick, 3600);
}
