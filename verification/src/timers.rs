//! The three counters that run with the ticks: the fade-in of the display
//! colour, the length of the tone and the length of the session.
//!
//! The fade is counted in hundredths, the tone in fifths of its length and
//! the session in ticks, so every step is exactly one.

use vstd::prelude::*;
use crate::geometry::Color;

verus! {

/// The fade when it is complete, in hundredths.
pub const FADE_FULL: u32 = 100;

/// Ticks that a tone lasts.
pub const TONE_TICKS: u32 = 5;

/// Ticks in one second.
pub const TICKS_PER_SECOND: u32 = 60;

/// Ticks that a session lasts: sixty seconds.
pub const SESSION_TICKS: u32 = 3600;

/// The colour shown while the fade stands at `fade` hundredths: red at that
/// share of its full strength, rounded down.
pub open spec fn fade_color(fade: nat) -> Color {
    Color { r: (255 * fade / 100) as u8, g: 0, b: 0, a: 0 }
}

/// What one tick of the counters asks of the game.
#[derive(Clone, Copy, Debug, PartialEq, Eq, Structural)]
pub struct TimerReport {
    /// The tone has run out and is to be paused.
    pub tone_over: bool,
    /// The session has run out: its countdown stands at zero after the
    /// tick.
    pub time_up: bool,
    /// The whole number of seconds that has just been reached, if any.
    pub second_mark: Option<u32>,
}

/// What the counters are.
pub struct EffectModel {
    pub fade: nat,
    pub tone_countdown: nat,
    pub session_countdown: nat,
    pub display_color: Color,
}

impl EffectModel {
    /// The fade never goes past full.
    pub open spec fn wf(self) -> bool {
        self.fade <= FADE_FULL
    }

    /// The counters of a fresh session.
    pub open spec fn started() -> EffectModel {
        EffectModel {
            fade: 0,
            tone_countdown: TONE_TICKS as nat,
            session_countdown: SESSION_TICKS as nat,
            display_color: Color::red(),
        }
    }

    /// A collision sets the display colour and starts the tone anew.
    pub open spec fn collided(self, color: Color) -> EffectModel {
        EffectModel { display_color: color, tone_countdown: TONE_TICKS as nat, ..self }
    }

    /// One step of the fade: while it is not full, it sets the display
    /// colour and grows by a hundredth.
    pub open spec fn faded(self) -> EffectModel {
        if self.fade < FADE_FULL {
            EffectModel {
                display_color: fade_color(self.fade),
                fade: self.fade + 1,
                ..self
            }
        } else {
            self
        }
    }

    /// Whether a tick finds the tone run out.
    pub open spec fn tone_over(self) -> bool {
        self.tone_countdown == 0
    }

    /// One step of the tone.
    pub open spec fn tone_advanced(self) -> EffectModel {
        if self.tone_countdown > 0 {
            EffectModel { tone_countdown: (self.tone_countdown - 1) as nat, ..self }
        } else {
            self
        }
    }

    /// Whether the session has run out.
    pub open spec fn time_up(self) -> bool {
        self.session_countdown == 0
    }

    /// One step of the session.
    pub open spec fn session_advanced(self) -> EffectModel {
        if self.session_countdown > 0 {
            EffectModel { session_countdown: (self.session_countdown - 1) as nat, ..self }
        } else {
            self
        }
    }

    /// The whole second at which the session stands, if it stands at one.
    pub open spec fn second_mark(self) -> Option<u32> {
        if self.session_countdown % (TICKS_PER_SECOND as nat) == 0 {
            Some((self.session_countdown / (TICKS_PER_SECOND as nat)) as u32)
        } else {
            None
        }
    }

    /// The counters after one tick.
    pub open spec fn advanced(self) -> EffectModel {
        self.faded().tone_advanced().session_advanced()
    }

    /// What one tick reports: whether it found the tone run out, whether the
    /// session has run out once the tick is done, and the whole second that
    /// the tick has reached. A tick that finds the session already at zero
    /// reaches no second.
    pub open spec fn report(self) -> TimerReport {
        TimerReport {
            tone_over: self.tone_over(),
            time_up: self.advanced().time_up(),
            second_mark: if self.session_countdown == 0 {
                None
            } else {
                self.advanced().second_mark()
            },
        }
    }

    /// The counters after `ticks` ticks.
    pub open spec fn ticked(self, ticks: nat) -> EffectModel
        decreases ticks,
    {
        if ticks == 0 {
            self
        } else {
            self.ticked((ticks - 1) as nat).advanced()
        }
    }
}

/// Each counter moves by one per tick until it reaches its end, and stays
/// there.
pub proof fn lemma_ticked(m: EffectModel, ticks: nat)
    requires
        m.wf(),
    ensures
        m.ticked(ticks).wf(),
        m.ticked(ticks).fade == if m.fade + ticks <= FADE_FULL {
            m.fade + ticks
        } else {
            FADE_FULL as nat
        },
        m.ticked(ticks).tone_countdown == if ticks <= m.tone_countdown {
            m.tone_countdown - ticks
        } else {
            0
        },
        m.ticked(ticks).session_countdown == if ticks <= m.session_countdown {
            m.session_countdown - ticks
        } else {
            0
        },
    decreases ticks,
{
    if ticks > 0 {
        lemma_ticked(m, (ticks - 1) as nat);
    }
}

/// A fresh session has run out after exactly its length in ticks and not
/// before: the tick that reports the end is the last of them. Its fade is
/// full after exactly a hundred ticks, and its first tone lasts five.
pub proof fn lemma_session_length(ticks: nat)
    ensures
        EffectModel::started().ticked(ticks).time_up() <==> ticks >= SESSION_TICKS,
        EffectModel::started().ticked(ticks).report().time_up <==> ticks + 1 >= SESSION_TICKS,
        EffectModel::started().ticked(ticks).fade == FADE_FULL <==> ticks >= FADE_FULL,
        EffectModel::started().ticked(ticks).tone_over() <==> ticks >= TONE_TICKS,
{
    lemma_ticked(EffectModel::started(), ticks);
}

/// While the fade is not full, a tick shows the fade colour; afterwards a
/// tick leaves the display colour alone.
pub proof fn lemma_fade_sets_color(m: EffectModel)
    requires
        m.wf(),
    ensures
        m.fade < FADE_FULL ==> m.advanced().display_color == fade_color(m.fade),
        m.fade == FADE_FULL ==> m.advanced().display_color == m.display_color,
        fade_color(0) == (Color { r: 0, g: 0, b: 0, a: 0 }),
        fade_color(99) == (Color { r: 252, g: 0, b: 0, a: 0 }),
{
}

/// The counters of a running session and the colour it shows.
pub struct EffectState {
    fade: u32,
    tone_countdown: u32,
    session_countdown: u32,
    display_color: Color,
}

impl View for EffectState {
    type V = EffectModel;

    closed spec fn view(&self) -> EffectModel {
        EffectModel {
            fade: self.fade as nat,
            tone_countdown: self.tone_countdown as nat,
            session_countdown: self.session_countdown as nat,
            display_color: self.display_color,
        }
    }
}

impl EffectState {
    #[verifier::type_invariant]
    pub(crate) open spec fn inv(self) -> bool {
        self@.wf()
    }

    /// The counters of a fresh session.
    pub fn new() -> (state: EffectState)
        ensures
            state@ == EffectModel::started(),
    {
        EffectState {
            fade: 0,
            tone_countdown: TONE_TICKS,
            session_countdown: SESSION_TICKS,
            display_color: Color { r: 255, g: 0, b: 0, a: 255 },
        }
    }

    /// A collision sets the display colour and starts the tone anew.
    pub fn collide(&mut self, color: Color)
        ensures
            final(self)@ == old(self)@.collided(color),
    {
        proof {
            use_type_invariant(&*self);
        }
        self.display_color = color;
        self.tone_countdown = TONE_TICKS;
    }

    /// Advances the counters by one tick and says what the tick has to
    /// report.
    pub fn advance(&mut self) -> (report: TimerReport)
        ensures
            final(self)@ == old(self)@.advanced(),
            report == old(self)@.report(),
            final(self)@.wf(),
    {
        proof {
            use_type_invariant(&*self);
        }
        if self.fade < FADE_FULL {
            let red: u32 = 255 * self.fade / 100;
            self.display_color = Color { r: red as u8, g: 0, b: 0, a: 0 };
            self.fade = self.fade + 1;
        }
        let tone_over: bool = self.tone_countdown == 0;
        if !tone_over {
            self.tone_countdown = self.tone_countdown - 1;
        }
        let mut second_mark: Option<u32> = None;
        if self.session_countdown > 0 {
            self.session_countdown = self.session_countdown - 1;
            if self.session_countdown % TICKS_PER_SECOND == 0 {
                second_mark = Some(self.session_countdown / TICKS_PER_SECOND);
            }
        }
        let time_up: bool = self.session_countdown == 0;
        TimerReport { tone_over, time_up, second_mark }
    }

    /// The fade, in hundredths.
    pub fn fade(&self) -> (fade: u32)
        ensures
            fade == self@.fade,
            fade <= FADE_FULL,
    {
        proof {
            use_type_invariant(self);
        }
        self.fade
    }

    /// Ticks that the tone has left.
    pub fn tone_countdown(&self) -> (ticks: u32)
        ensures
            ticks == self@.tone_countdown,
    {
        self.tone_countdown
    }

    /// Ticks that the session has left.
    pub fn session_countdown(&self) -> (ticks: u32)
        ensures
            ticks == self@.session_countdown,
    {
        self.session_countdown
    }

    pub fn display_color(&self) -> (color: Color)
        ensures
            color == self@.display_color,
    {
        self.display_color
    }
}

} // verus!
