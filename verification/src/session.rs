//! One session of the game: what a tick does to it and how it ends.
//!
//! The session decides; it does no input or output. Whoever runs it hands in
//! the keys that are held and carries out what the report of each tick asks
//! for: a command for the tone, a line for the log, a frame to draw.

use vstd::prelude::*;
use crate::geometry::{Arena, BoundingBox, Color};
use crate::orb::{Orb, OrbModel, ORB_START};
use crate::player::{Player, PlayerModel, DEFAULT_SPEED};
use crate::random::Draws;
use crate::score::{decimal, ScoreModel, ScoreTracker, Verdict};
use crate::timers::{EffectModel, EffectState, SESSION_TICKS};

verus! {

/// Where a session stands.
#[derive(Clone, Copy, Debug, PartialEq, Eq, Structural)]
pub enum Phase {
    /// Set up, not yet running.
    Loading,
    /// Ticking.
    Running,
    /// Over; the score is still to be settled.
    Ending,
    /// Settled.
    Terminated,
}

/// What the player asks for during one tick.
#[derive(Clone, Copy, Debug, PartialEq, Eq, Structural)]
pub struct Input {
    pub up: bool,
    pub left: bool,
    pub down: bool,
    pub right: bool,
    pub quit: bool,
}

/// What a tick asks of the tone.
#[derive(Clone, Copy, Debug, PartialEq, Eq, Structural)]
pub enum ToneCommand {
    /// Leave it as it is.
    Keep,
    /// Let it sound.
    Resume,
    /// Silence it.
    Pause,
}

/// What to draw: the background, the two boxes and the colour that fills
/// them.
#[derive(Clone, Copy, Debug, PartialEq, Eq, Structural)]
pub struct Frame {
    pub background: Color,
    pub player: BoundingBox,
    pub orb: BoundingBox,
    pub fill: Color,
}

impl Frame {
    /// The boxes in the order in which they are drawn.
    pub fn rectangles(&self) -> (boxes: Vec<BoundingBox>)
        ensures
            boxes@ == seq![self.player, self.orb],
    {
        let mut boxes: Vec<BoundingBox> = Vec::new();
        boxes.push(self.player);
        boxes.push(self.orb);
        boxes
    }
}

/// What one tick leaves to do.
#[derive(Clone, Copy, Debug, PartialEq, Eq, Structural)]
pub struct TickReport {
    /// The phase after the tick.
    pub phase: Phase,
    pub tone: ToneCommand,
    /// The whole number of seconds left, when the tick reached one.
    pub second_mark: Option<u32>,
    /// The frame to draw; none once the session is over.
    pub frame: Option<Frame>,
}

impl TickReport {
    /// The report of a tick that did nothing.
    pub open spec fn idle(phase: Phase) -> TickReport {
        TickReport { phase, tone: ToneCommand::Keep, second_mark: None, frame: None }
    }
}

/// The player after the moves that `input` holds: left, right, down, up, in
/// that order, each one step.
pub open spec fn steered(player: PlayerModel, input: Input) -> PlayerModel {
    let after_left = if input.left {
        player.moved(-1, 0)
    } else {
        player
    };
    let after_right = if input.right {
        after_left.moved(1, 0)
    } else {
        after_left
    };
    let after_down = if input.down {
        after_right.moved(0, 1)
    } else {
        after_right
    };
    if input.up {
        after_down.moved(0, -1)
    } else {
        after_down
    }
}

/// What a session is.
pub struct SessionModel {
    pub phase: Phase,
    pub player: PlayerModel,
    pub orb: OrbModel,
    pub scores: ScoreModel,
    pub effects: EffectModel,
}

impl SessionModel {
    pub open spec fn wf(self) -> bool {
        &&& self.player.wf()
        &&& self.effects.wf()
    }

    /// Whether a session can start in `arena`: the player's box must fit at
    /// its centre.
    pub open spec fn fits(arena: Arena) -> bool {
        &&& arena.wf()
        &&& arena.admits_player(arena.width as int / 2, arena.height as int / 2)
    }

    /// A session before its first tick.
    pub open spec fn loaded(arena: Arena, high_score: u32) -> SessionModel {
        SessionModel {
            phase: Phase::Loading,
            player: PlayerModel {
                arena,
                x: arena.width as int / 2,
                y: arena.height as int / 2,
                speed: DEFAULT_SPEED as int,
            },
            orb: OrbModel { x: ORB_START as int, y: ORB_START as int },
            scores: ScoreModel { score: 0, high_score },
            effects: EffectModel::started(),
        }
    }

    /// Whether the player's box and the orb's box overlap.
    pub open spec fn touching(self) -> bool {
        self.player.bounding_box().overlaps(self.orb.bounding_box())
    }

    /// The session after a collision: one more point, the drawn colour, the
    /// orb at the drawn place and the tone started anew.
    pub open spec fn collided(self, draws: Draws) -> SessionModel {
        SessionModel {
            scores: self.scores.collided(),
            effects: self.effects.collided(draws.color()),
            orb: OrbModel::respawned(draws),
            ..self
        }
    }

    /// The session after the player has moved and a collision, if there is
    /// one, has been dealt with.
    pub open spec fn played(self, input: Input, draws: Draws) -> SessionModel {
        let moved = SessionModel { player: steered(self.player, input), ..self };
        if moved.touching() {
            moved.collided(draws)
        } else {
            moved
        }
    }

    /// Whether the tick with `input` ends in a collision.
    pub open spec fn hits(self, input: Input) -> bool {
        (SessionModel { player: steered(self.player, input), ..self }).touching()
    }

    /// The session after its counters have advanced by one tick: it ends
    /// with the tick that brings its countdown to zero.
    pub open spec fn wound_up(self) -> SessionModel {
        SessionModel {
            phase: if self.effects.advanced().time_up() {
                Phase::Ending
            } else {
                Phase::Running
            },
            effects: self.effects.advanced(),
            ..self
        }
    }

    /// The session after one tick. A session that is not running stays as it
    /// is. A request to quit ends it once the player has moved. Otherwise the
    /// collision is dealt with and the counters advance.
    pub open spec fn ticked(self, input: Input, draws: Draws) -> SessionModel {
        if self.phase != Phase::Running {
            self
        } else if input.quit {
            SessionModel { phase: Phase::Ending, player: steered(self.player, input), ..self }
        } else {
            self.played(input, draws).wound_up()
        }
    }

    /// The frame that shows the session.
    pub open spec fn frame(self) -> Frame {
        Frame {
            background: Color::black(),
            player: self.player.bounding_box(),
            orb: self.orb.bounding_box(),
            fill: self.effects.display_color,
        }
    }

    /// What a tick reports once the player has moved and the collision has
    /// been dealt with; `hit` says whether there was one. A collision
    /// resumes the tone; without one, a tone that has run out is paused.
    /// The tick reports the second it has reached and, while the session
    /// goes on, the frame of the session as it then stands.
    pub open spec fn closing_report(self, hit: bool) -> TickReport {
        let timers = self.effects.report();
        let tone = if hit {
            ToneCommand::Resume
        } else if timers.tone_over {
            ToneCommand::Pause
        } else {
            ToneCommand::Keep
        };
        if timers.time_up {
            TickReport {
                phase: Phase::Ending,
                tone,
                second_mark: timers.second_mark,
                frame: None,
            }
        } else {
            TickReport {
                phase: Phase::Running,
                tone,
                second_mark: timers.second_mark,
                frame: Some(self.wound_up().frame()),
            }
        }
    }

    /// What the tick with `input` and `draws` reports.
    pub open spec fn tick_report(self, input: Input, draws: Draws) -> TickReport {
        if self.phase != Phase::Running {
            TickReport::idle(self.phase)
        } else if input.quit {
            TickReport::idle(Phase::Ending)
        } else {
            self.played(input, draws).closing_report(self.hits(input))
        }
    }

    /// A session that has just been set running.
    pub open spec fn started(arena: Arena, high_score: u32) -> SessionModel {
        SessionModel { phase: Phase::Running, ..SessionModel::loaded(arena, high_score) }
    }

    /// The session after one tick for each input of `inputs`, first to
    /// last; the tick at a place takes its draws from the same place of
    /// `draws`.
    pub open spec fn run(self, inputs: Seq<Input>, draws: Seq<Draws>) -> SessionModel
        decreases inputs.len(),
    {
        if inputs.len() == 0 {
            self
        } else {
            self.run(inputs.drop_last(), draws.drop_last()).ticked(inputs.last(), draws.last())
        }
    }

    /// The session once its score is settled.
    pub open spec fn finished(self) -> SessionModel {
        if self.phase == Phase::Ending {
            SessionModel { phase: Phase::Terminated, scores: self.scores.settled(), ..self }
        } else {
            self
        }
    }
}

/// Steering keeps the player inside the arena.
pub proof fn lemma_steered_stays_inside(player: PlayerModel, input: Input)
    requires
        player.wf(),
    ensures
        steered(player, input).wf(),
        steered(player, input).arena == player.arena,
        steered(player, input).speed == player.speed,
        steered(player, input).bounding_box().inside(player.arena),
{
}

/// A tick keeps a session well-formed in the same arena; the player's box
/// stays inside the arena, and an orb that was hit waits where the arena
/// admits it.
pub proof fn lemma_tick_keeps_bounds(m: SessionModel, input: Input, draws: Draws)
    requires
        m.wf(),
        draws.wf(m.player.arena),
    ensures
        m.ticked(input, draws).wf(),
        m.ticked(input, draws).player.arena == m.player.arena,
        m.ticked(input, draws).player.bounding_box().inside(m.player.arena),
        m.phase == Phase::Running && !input.quit && m.hits(input) ==> m.ticked(
            input,
            draws,
        ).orb.within(m.player.arena),
        !(m.phase == Phase::Running && !input.quit && m.hits(input)) ==> m.ticked(
            input,
            draws,
        ).orb == m.orb,
{
    lemma_steered_stays_inside(m.player, input);
}

/// What a tick does to the score: a collision adds one point, going back to
/// zero after the largest score; nothing else changes the score, and no
/// tick changes the record.
pub proof fn lemma_tick_scores(m: SessionModel, input: Input, draws: Draws)
    ensures
        m.ticked(input, draws).scores.high_score == m.scores.high_score,
        m.ticked(input, draws).scores.score == if m.phase == Phase::Running && !input.quit
            && m.hits(input) {
            crate::score::next_score(m.scores.score)
        } else {
            m.scores.score
        },
{
}

/// A session leaves the running phase only for the ending one, and does so
/// exactly with a tick that is asked to quit or that brings the countdown to
/// zero. A tick draws a frame exactly when the session goes on.
pub proof fn lemma_tick_ends(m: SessionModel, input: Input, draws: Draws)
    requires
        m.phase == Phase::Running,
    ensures
        m.ticked(input, draws).phase == Phase::Ending <==> input.quit
            || m.effects.session_countdown <= 1,
        m.ticked(input, draws).phase == Phase::Running <==> !(input.quit
            || m.effects.session_countdown <= 1),
        !input.quit ==> m.ticked(input, draws).effects.session_countdown
            == m.effects.session_advanced().session_countdown,
        m.tick_report(input, draws).phase == m.ticked(input, draws).phase,
        m.tick_report(input, draws).frame is Some <==> m.ticked(input, draws).phase
            == Phase::Running,
{
}

/// A session that is not running is left as it is by a tick, which then
/// reports nothing to do.
pub proof fn lemma_tick_needs_running(m: SessionModel, input: Input, draws: Draws)
    requires
        m.phase != Phase::Running,
    ensures
        m.ticked(input, draws) == m,
        m.tick_report(input, draws) == TickReport::idle(m.phase),
{
}

/// Whether none of `inputs` asks to quit.
pub open spec fn quiet(inputs: Seq<Input>) -> bool {
    forall|i: int| 0 <= i < inputs.len() ==> !(#[trigger] inputs[i]).quit
}

/// A running session that is not asked to quit goes on for as many ticks as
/// its countdown holds, less one, and ends with the tick that brings the
/// countdown to zero. It stays ended after that.
pub proof fn lemma_session_runs_its_length(m: SessionModel, inputs: Seq<Input>, draws: Seq<Draws>)
    requires
        m.phase == Phase::Running,
        m.effects.session_countdown > 0,
        quiet(inputs),
    ensures
        inputs.len() < m.effects.session_countdown ==> {
            &&& m.run(inputs, draws).phase == Phase::Running
            &&& m.run(inputs, draws).effects.session_countdown == m.effects.session_countdown
                - inputs.len()
        },
        inputs.len() >= m.effects.session_countdown ==> {
            &&& m.run(inputs, draws).phase == Phase::Ending
            &&& m.run(inputs, draws).effects.session_countdown == 0
        },
    decreases inputs.len(),
{
    if inputs.len() > 0 {
        let before = m.run(inputs.drop_last(), draws.drop_last());
        assert(quiet(inputs.drop_last())) by {
            assert forall|i: int| 0 <= i < inputs.drop_last().len() implies !(
            #[trigger] inputs.drop_last()[i]).quit by {
                assert(inputs.drop_last()[i] == inputs[i]);
            }
        }
        lemma_session_runs_its_length(m, inputs.drop_last(), draws.drop_last());
        assert(!inputs.last().quit) by {
            assert(inputs.last() == inputs[inputs.len() - 1]);
        }
        if before.phase == Phase::Running {
            lemma_tick_ends(before, inputs.last(), draws.last());
        } else {
            lemma_tick_needs_running(before, inputs.last(), draws.last());
        }
    }
}

/// A session that has just been set running and is not asked to quit is
/// still running after fewer ticks than a session lasts, and is ending
/// after exactly that many.
pub proof fn lemma_fresh_session_length(
    arena: Arena,
    high_score: u32,
    inputs: Seq<Input>,
    draws: Seq<Draws>,
)
    requires
        quiet(inputs),
    ensures
        inputs.len() < SESSION_TICKS ==> SessionModel::started(arena, high_score).run(
            inputs,
            draws,
        ).phase == Phase::Running,
        inputs.len() == SESSION_TICKS ==> SessionModel::started(arena, high_score).run(
            inputs,
            draws,
        ).phase == Phase::Ending,
        inputs.len() <= SESSION_TICKS ==> SessionModel::started(arena, high_score).run(
            inputs,
            draws,
        ).effects.session_countdown == SESSION_TICKS - inputs.len(),
{
    lemma_session_runs_its_length(SessionModel::started(arena, high_score), inputs, draws);
}

/// A running session: the player, the orb, the scores and the counters.
pub struct Session {
    phase: Phase,
    player: Player,
    orb: Orb,
    scores: ScoreTracker,
    effects: EffectState,
}

impl View for Session {
    type V = SessionModel;

    closed spec fn view(&self) -> SessionModel {
        SessionModel {
            phase: self.phase,
            player: self.player@,
            orb: self.orb@,
            scores: self.scores@,
            effects: self.effects@,
        }
    }
}

impl Session {
    /// A session in `arena` with `high_score` on record, not yet running:
    /// the player at the centre, the orb at its first place. There is none
    /// where the player's box does not fit at the centre.
    pub fn new(arena: Arena, high_score: u32) -> (session: Option<Session>)
        ensures
            session is Some <==> SessionModel::fits(arena),
            session matches Some(s) ==> s@ == SessionModel::loaded(arena, high_score) && s@.wf(),
    {
        if !arena.is_valid() {
            return None;
        }
        let x: i32 = (arena.width / 2) as i32;
        let y: i32 = (arena.height / 2) as i32;
        match Player::new(arena, x, y, DEFAULT_SPEED) {
            Some(player) => Some(
                Session {
                    phase: Phase::Loading,
                    player,
                    orb: Orb::new(ORB_START, ORB_START),
                    scores: ScoreTracker::new(high_score),
                    effects: EffectState::new(),
                },
            ),
            None => None,
        }
    }

    /// A running session made of the given parts.
    pub fn with_parts(
        player: Player,
        orb: Orb,
        scores: ScoreTracker,
        effects: EffectState,
    ) -> (session: Session)
        ensures
            session@ == (SessionModel {
                phase: Phase::Running,
                player: player@,
                orb: orb@,
                scores: scores@,
                effects: effects@,
            }),
            session@.wf(),
    {
        proof {
            use_type_invariant(&player);
            use_type_invariant(&effects);
        }
        Session { phase: Phase::Running, player, orb, scores, effects }
    }

    /// Sets a loaded session running. Says whether it did: only a loaded
    /// session starts.
    pub fn start(&mut self) -> (started: bool)
        ensures
            started == (old(self)@.phase == Phase::Loading),
            final(self)@ == if started {
                SessionModel { phase: Phase::Running, ..old(self)@ }
            } else {
                old(self)@
            },
    {
        if self.phase == Phase::Loading {
            self.phase = Phase::Running;
            true
        } else {
            false
        }
    }

    /// Moves the player as `input` asks.
    fn steer(&mut self, input: Input)
        ensures
            final(self)@ == (SessionModel {
                player: steered(old(self)@.player, input),
                ..old(self)@
            }),
            final(self)@.player.arena == old(self)@.player.arena,
    {
        if input.left {
            self.player.move_player(-1, 0);
        }
        if input.right {
            self.player.move_player(1, 0);
        }
        if input.down {
            self.player.move_player(0, 1);
        }
        if input.up {
            self.player.move_player(0, -1);
        }
    }

    /// Whether the player's box and the orb's box overlap.
    pub fn touching(&self) -> (hit: bool)
        ensures
            hit == self@.touching(),
    {
        self.player.bounding_box().has_intersection(&self.orb.bounding_box())
    }

    /// Deals with a collision.
    fn strike(&mut self, draws: Draws)
        requires
            draws.wf(old(self)@.player.arena),
        ensures
            final(self)@ == old(self)@.collided(draws),
    {
        let arena: Arena = self.player.arena();
        self.scores.record_collision();
        self.effects.collide(Color { r: draws.red, g: draws.green, b: draws.blue, a: 0 });
        self.orb.respawn(&arena, &draws);
    }

    /// Advances the counters and puts the report of the tick together.
    fn wind_up(&mut self, hit: bool) -> (report: TickReport)
        ensures
            final(self)@ == old(self)@.wound_up(),
            report == old(self)@.closing_report(hit),
            final(self)@.wf(),
    {
        proof {
            use_type_invariant(&self.player);
        }
        let timers = self.effects.advance();
        let tone = if hit {
            ToneCommand::Resume
        } else if timers.tone_over {
            ToneCommand::Pause
        } else {
            ToneCommand::Keep
        };
        if timers.time_up {
            self.phase = Phase::Ending;
            TickReport {
                phase: Phase::Ending,
                tone,
                second_mark: timers.second_mark,
                frame: None,
            }
        } else {
            self.phase = Phase::Running;
            TickReport {
                phase: Phase::Running,
                tone,
                second_mark: timers.second_mark,
                frame: Some(
                    Frame {
                        background: Color { r: 0, g: 0, b: 0, a: 255 },
                        player: self.player.bounding_box(),
                        orb: self.orb.bounding_box(),
                        fill: self.effects.display_color(),
                    },
                ),
            }
        }
    }

    /// The report of a tick that changes nothing more.
    fn settled_report(&self) -> (report: TickReport)
        ensures
            report == TickReport::idle(self@.phase),
            self@.wf(),
    {
        proof {
            use_type_invariant(&self.player);
            use_type_invariant(&self.effects);
        }
        TickReport { phase: self.phase, tone: ToneCommand::Keep, second_mark: None, frame: None }
    }

    /// One tick with the random choices handed in.
    pub fn tick_with(&mut self, input: Input, draws: Draws) -> (report: TickReport)
        requires
            draws.wf(old(self)@.player.arena),
        ensures
            final(self)@ == old(self)@.ticked(input, draws),
            report == old(self)@.tick_report(input, draws),
            final(self)@.wf(),
    {
        if self.phase != Phase::Running {
            return self.settled_report();
        }
        self.steer(input);
        if input.quit {
            self.phase = Phase::Ending;
            return self.settled_report();
        }
        let hit: bool = self.touching();
        if hit {
            self.strike(draws);
        }
        self.wind_up(hit)
    }

    /// One tick. What a collision needs at random is drawn when there is
    /// one, so the outcome is that of a tick with some draws that suit the
    /// arena.
    pub fn tick(&mut self, input: Input) -> (report: TickReport)
        ensures
            exists|draws: Draws| #[trigger]
                draws.wf(old(self)@.player.arena) && final(self)@ == old(self)@.ticked(
                    input,
                    draws,
                ) && report == old(self)@.tick_report(input, draws),
            final(self)@.wf(),
    {
        let arena: Arena = self.player.arena();
        let ghost spare = Draws { red: 1, green: 1, blue: 1, x: 32, y: 32 };
        assert(spare.wf(arena));
        if self.phase != Phase::Running {
            let report = self.settled_report();
            assert(self@ == old(self)@.ticked(input, spare));
            return report;
        }
        self.steer(input);
        if input.quit {
            self.phase = Phase::Ending;
            let report = self.settled_report();
            assert(self@ == old(self)@.ticked(input, spare));
            return report;
        }
        let hit: bool = self.touching();
        if hit {
            let draws: Draws = Draws::random(&arena);
            self.strike(draws);
            let report = self.wind_up(hit);
            assert(self@ == old(self)@.ticked(input, draws));
            report
        } else {
            let report = self.wind_up(hit);
            assert(self@ == old(self)@.ticked(input, spare));
            report
        }
    }

    /// Settles a session that is over: says how it went and what to store
    /// as the new record, if anything. Gives nothing in any other phase.
    pub fn finish(&mut self) -> (outcome: Option<(Verdict, Option<Vec<u8>>)>)
        ensures
            final(self)@ == old(self)@.finished(),
            outcome is Some <==> old(self)@.phase == Phase::Ending,
            outcome matches Some(settled) ==> {
                &&& settled.0 == old(self)@.scores.verdict()
                &&& settled.1 is Some <==> old(self)@.scores.beats_record()
                &&& settled.1 matches Some(text) ==> text@ == decimal(
                    old(self)@.scores.score as nat,
                )
            },
    {
        if self.phase == Phase::Ending {
            let settled = self.scores.settle();
            self.phase = Phase::Terminated;
            Some(settled)
        } else {
            None
        }
    }

    pub fn phase(&self) -> (phase: Phase)
        ensures
            phase == self@.phase,
    {
        self.phase
    }

    pub fn arena(&self) -> (arena: Arena)
        ensures
            arena == self@.player.arena,
            arena.wf(),
    {
        self.player.arena()
    }

    pub fn player(&self) -> (player: &Player)
        ensures
            player@ == self@.player,
    {
        &self.player
    }

    pub fn orb(&self) -> (orb: &Orb)
        ensures
            orb@ == self@.orb,
    {
        &self.orb
    }

    pub fn scores(&self) -> (scores: &ScoreTracker)
        ensures
            scores@ == self@.scores,
    {
        &self.scores
    }

    pub fn effects(&self) -> (effects: &EffectState)
        ensures
            effects@ == self@.effects,
    {
        &self.effects
    }
}

} // verus!
