//! The two voices of the game, each a generator of one sample per step.
//!
//! Volumes are counted in thousandths. The sample player works on unsigned
//! 8-bit samples around the neutral value; the tone gives signed levels in
//! thousandths of full scale, and its phase is counted in samples of one
//! second.

use vstd::prelude::*;
use vstd::arithmetic::div_mod::lemma_add_mod_noop;

verus! {

/// The sample that means silence.
pub const NEUTRAL: u8 = 128;

/// One whole, in the unit of volumes.
pub const VOLUME_UNIT: u16 = 1000;

/// The volume at which the recorded sound is played: a quarter.
pub const SOUND_VOLUME: u16 = 250;

/// The volume of the tone: three hundredths.
pub const TONE_VOLUME: u16 = 30;

/// The pitch of the tone, in cycles per second.
pub const TONE_FREQUENCY: u32 = 400;

/// `sample` played at `volume`: its distance from the neutral value is
/// scaled, the result is rounded to the nearest sample, a half upward, and
/// kept within the range of a sample.
pub open spec fn scaled(sample: u8, volume: nat) -> u8 {
    let swing = (sample - NEUTRAL) * volume;
    let rounded = NEUTRAL + (swing + VOLUME_UNIT / 2) / (VOLUME_UNIT as int);
    if rounded < 0 {
        0u8
    } else if rounded > 255 {
        255u8
    } else {
        rounded as u8
    }
}

/// What a sample player is: its recording, its volume and the index of the
/// next sample.
pub struct SoundModel {
    pub data: Seq<u8>,
    pub volume: nat,
    pub pos: nat,
}

impl SoundModel {
    /// The recording is no longer than an index can say, and the index of
    /// the next sample is one.
    pub open spec fn wf(self) -> bool {
        &&& self.data.len() <= usize::MAX
        &&& self.pos <= usize::MAX
    }

    /// The sample that is played at `index`: the scaled recording while it
    /// lasts, silence after its end.
    pub open spec fn sample_at(self, index: nat) -> u8 {
        if index < self.data.len() {
            scaled(self.data[index as int], self.volume)
        } else {
            NEUTRAL
        }
    }

    /// Whether the recording has been played to its end.
    pub open spec fn exhausted(self) -> bool {
        self.pos >= self.data.len()
    }

    /// The player after `count` samples. The index only grows, and stops at
    /// the largest index there is.
    pub open spec fn advanced(self, count: nat) -> SoundModel {
        SoundModel {
            pos: if self.pos + count <= usize::MAX {
                self.pos + count
            } else {
                usize::MAX as nat
            },
            ..self
        }
    }
}

/// Silence, at any volume, stays silence.
pub proof fn lemma_neutral_is_fixed(volume: nat)
    ensures
        scaled(NEUTRAL, volume) == NEUTRAL,
{
}

/// At the volume of the game a sample keeps a quarter of its distance from
/// the neutral value.
pub proof fn lemma_scaled_at_quarter(sample: u8)
    ensures
        scaled(sample, SOUND_VOLUME as nat) == (sample as int - 126) / 4 + 128,
        96 <= scaled(sample, SOUND_VOLUME as nat) <= 160,
{
}

/// The index of the next sample only grows, by as many samples as were
/// played unless it has reached the largest index.
pub proof fn lemma_cursor_only_advances(m: SoundModel, played: nat)
    requires
        m.wf(),
    ensures
        m.advanced(played).wf(),
        m.advanced(played).pos >= m.pos,
        m.pos + played <= usize::MAX ==> m.advanced(played).pos == m.pos + played,
        m.advanced(played).data == m.data,
        m.advanced(played).volume == m.volume,
{
}

/// Once the recording is exhausted, every sample from then on is the
/// neutral value, whatever number of samples has been played since.
pub proof fn lemma_silence_after_end(m: SoundModel, played: nat, index: nat)
    requires
        m.wf(),
        m.exhausted(),
        index >= m.pos,
    ensures
        m.advanced(played).exhausted(),
        m.advanced(played).sample_at(index) == NEUTRAL,
        m.sample_at(index) == NEUTRAL,
{
}

/// Plays a recording once, at a fixed volume, and silence after it.
pub struct Sound {
    data: Vec<u8>,
    volume: u16,
    pos: usize,
}

impl View for Sound {
    type V = SoundModel;

    closed spec fn view(&self) -> SoundModel {
        SoundModel { data: self.data@, volume: self.volume as nat, pos: self.pos as nat }
    }
}

impl Sound {
    /// A player at the start of `data`.
    pub fn new(data: Vec<u8>, volume: u16) -> (sound: Sound)
        ensures
            sound@ == (SoundModel { data: data@, volume: volume as nat, pos: 0 }),
            sound@.wf(),
    {
        assert(data@.len() == data.len());
        Sound { data, volume, pos: 0 }
    }

    /// Index of the next sample.
    pub fn pos(&self) -> (pos: usize)
        ensures
            pos == self@.pos,
    {
        self.pos
    }

    /// Whether the recording has been played to its end.
    pub fn is_exhausted(&self) -> (done: bool)
        ensures
            done == self@.exhausted(),
    {
        self.pos >= self.data.len()
    }

    /// Gives the next sample and moves on by one.
    pub fn next_sample(&mut self) -> (sample: u8)
        ensures
            sample == old(self)@.sample_at(old(self)@.pos),
            final(self)@ == old(self)@.advanced(1),
            final(self)@.wf(),
    {
        assert(self.data@.len() == self.data.len());
        let sample: u8 = if self.pos < self.data.len() {
            scale(self.data[self.pos], self.volume)
        } else {
            NEUTRAL
        };
        if self.pos < usize::MAX {
            self.pos = self.pos + 1;
        }
        sample
    }

    /// Fills `out` with the next samples, one for each place.
    pub fn callback(&mut self, out: &mut [u8])
        ensures
            final(out)@.len() == old(out)@.len(),
            forall|i: int|
                0 <= i < old(out)@.len() ==> #[trigger] final(out)@[i] == old(self)@.sample_at(
                    (old(self)@.pos + i) as nat,
                ),
            final(self)@ == old(self)@.advanced(old(out)@.len()),
            final(self)@.wf(),
            old(self)@.exhausted() ==> final(self)@.exhausted(),
    {
        let ghost start = self@;
        assert(self.data@.len() == self.data.len());
        let n: usize = out.len();
        let mut i: usize = 0;
        while i < n
            invariant
                out@.len() == n,
                i <= n,
                start.wf(),
                self@ == start.advanced(i as nat),
                forall|j: int|
                    0 <= j < i ==> #[trigger] out@[j] == start.sample_at((start.pos + j) as nat),
            decreases n - i,
        {
            let sample: u8 = self.next_sample();
            out[i] = sample;
            i += 1;
        }
    }
}

/// Scales one sample; see [`scaled`].
fn scale(sample: u8, volume: u16) -> (out: u8)
    ensures
        out == scaled(sample, volume as nat),
{
    assert(-8_388_608 <= (sample - 128) * volume <= 8_388_608) by (nonlinear_arith)
        requires
            0 <= sample <= 255,
            0 <= volume <= 65_535,
    ;
    let total: i64 = (sample as i64 - 128) * (volume as i64) + 128_500;
    if total < 0 {
        0
    } else {
        let rounded: i64 = total / 1000;
        if rounded > 255 {
            255
        } else {
            rounded as u8
        }
    }
}

/// What the tone is: the sample rate, the pitch, the phase and the volume.
/// The phase counts samples of one second, so a cycle has `rate` of them.
pub struct ToneModel {
    pub rate: nat,
    pub frequency: nat,
    pub phase: nat,
    pub volume: nat,
}

impl ToneModel {
    /// There is a sample rate, and the phase lies within one cycle.
    pub open spec fn wf(self) -> bool {
        &&& self.rate > 0
        &&& self.phase < self.rate
    }

    /// The level at the present phase: the volume through the first half of
    /// the cycle, the half itself counted, and its negative after it.
    pub open spec fn level(self) -> int {
        if 2 * self.phase <= self.rate {
            self.volume as int
        } else {
            -(self.volume as int)
        }
    }

    /// The tone one sample later: the phase has grown by the pitch and is
    /// taken back into the cycle.
    pub open spec fn advanced(self) -> ToneModel {
        ToneModel { phase: (self.phase + self.frequency) % self.rate, ..self }
    }

    /// The tone `count` samples later.
    pub open spec fn after(self, count: nat) -> ToneModel
        decreases count,
    {
        if count == 0 {
            self
        } else {
            self.after((count - 1) as nat).advanced()
        }
    }
}

/// The level is the volume up to and at half a cycle and its negative
/// beyond, so its size is the volume at every sample.
pub proof fn lemma_level_is_square(m: ToneModel)
    requires
        m.wf(),
    ensures
        2 * m.phase <= m.rate ==> m.level() == m.volume,
        2 * m.phase > m.rate ==> m.level() == -m.volume,
        m.level() == m.volume || m.level() == -m.volume,
        (if m.level() >= 0 { m.level() } else { -m.level() }) == m.volume,
        m.volume > 0 ==> (m.level() > 0 <==> 2 * m.phase <= m.rate),
{
}

/// After any number of samples the tone is still well-formed, and its phase
/// is the start plus that many steps, taken into the cycle.
pub proof fn lemma_phase_after(m: ToneModel, count: nat)
    requires
        m.wf(),
    ensures
        m.after(count).wf(),
        m.after(count).rate == m.rate,
        m.after(count).frequency == m.frequency,
        m.after(count).volume == m.volume,
        m.after(count).phase == (m.phase + count * m.frequency) % m.rate,
    decreases count,
{
    if count == 0 {
        assert(m.phase % m.rate == m.phase) by (nonlinear_arith)
            requires
                m.phase < m.rate,
        ;
        assert(count * m.frequency == 0) by (nonlinear_arith)
            requires
                count == 0,
        ;
    } else {
        let before = (count - 1) as nat;
        lemma_phase_after(m, before);
        let r = m.rate as int;
        let a = (m.phase + before * m.frequency) as int;
        let f = m.frequency as int;
        lemma_add_mod_noop(a, f, r);
        assert(((a % r) + (f % r)) % r == (a + f) % r);
        lemma_add_mod_noop(a % r, f, r);
        assert((a % r) % r == a % r) by (nonlinear_arith)
            requires
                r > 0,
        ;
        assert(a + f == m.phase + count * m.frequency) by (nonlinear_arith)
            requires
                a == m.phase + before * m.frequency,
                f == m.frequency,
                before == count - 1,
        ;
    }
}

/// A square-wave tone.
pub struct SquareWave {
    rate: u32,
    frequency: u32,
    phase: u32,
    volume: u16,
}

impl View for SquareWave {
    type V = ToneModel;

    closed spec fn view(&self) -> ToneModel {
        ToneModel {
            rate: self.rate as nat,
            frequency: self.frequency as nat,
            phase: self.phase as nat,
            volume: self.volume as nat,
        }
    }
}

impl SquareWave {
    #[verifier::type_invariant]
    spec fn inv(self) -> bool {
        self@.wf()
    }

    /// A tone of `frequency` cycles per second for an output of
    /// `sample_rate` samples per second, at the start of a cycle. There is
    /// none for a sample rate of zero.
    pub fn new(frequency: u32, sample_rate: u32, volume: u16) -> (tone: Option<SquareWave>)
        ensures
            tone is Some <==> sample_rate > 0,
            tone matches Some(t) ==> t@ == (ToneModel {
                rate: sample_rate as nat,
                frequency: frequency as nat,
                phase: 0,
                volume: volume as nat,
            }),
    {
        if sample_rate > 0 {
            Some(SquareWave { rate: sample_rate, frequency, phase: 0, volume })
        } else {
            None
        }
    }

    /// Gives the level of the present sample and moves on by one.
    pub fn next_level(&mut self) -> (level: i32)
        ensures
            level == old(self)@.level(),
            final(self)@ == old(self)@.advanced(),
            final(self)@.wf(),
    {
        proof {
            use_type_invariant(&*self);
        }
        let level: i32 = if 2 * (self.phase as u64) <= self.rate as u64 {
            self.volume as i32
        } else {
            -(self.volume as i32)
        };
        let next: u64 = (self.phase as u64 + self.frequency as u64) % (self.rate as u64);
        self.phase = next as u32;
        level
    }

    /// Fills `out` with the levels of the next samples, one for each place.
    pub fn callback(&mut self, out: &mut [i32])
        ensures
            final(out)@.len() == old(out)@.len(),
            forall|i: int|
                0 <= i < old(out)@.len() ==> #[trigger] final(out)@[i] == old(self)@.after(
                    i as nat,
                ).level(),
            final(self)@ == old(self)@.after(old(out)@.len()),
    {
        let ghost start = self@;
        let n: usize = out.len();
        let mut i: usize = 0;
        while i < n
            invariant
                out@.len() == n,
                i <= n,
                self@ == start.after(i as nat),
                forall|j: int| 0 <= j < i ==> #[trigger] out@[j] == start.after(j as nat).level(),
            decreases n - i,
        {
            let level: i32 = self.next_level();
            out[i] = level;
            i += 1;
        }
    }

    /// The phase, in samples of one second.
    pub fn phase(&self) -> (phase: u32)
        ensures
            phase == self@.phase,
            phase < self@.rate,
    {
        proof {
            use_type_invariant(self);
        }
        self.phase
    }

    /// The volume, in thousandths.
    pub fn volume(&self) -> (volume: u16)
        ensures
            volume == self@.volume,
    {
        self.volume
    }
}

} // verus!
