//! The score of a session, the stored high score and its decimal text.

use vstd::prelude::*;

verus! {

/// The score after one more collision: one higher, and zero after the
/// largest value.
pub open spec fn next_score(score: u32) -> u32 {
    if score == u32::MAX {
        0
    } else {
        (score + 1) as u32
    }
}

/// The score after `collisions` collisions, counted from `start`.
pub open spec fn score_after(start: u32, collisions: nat) -> u32
    decreases collisions,
{
    if collisions == 0 {
        start
    } else {
        next_score(score_after(start, (collisions - 1) as nat))
    }
}

/// Collisions are counted modulo the number of values of the counter, so as
/// long as the count fits, the score is the start plus the collisions.
pub proof fn lemma_score_after(start: u32, collisions: nat)
    ensures
        score_after(start, collisions) == (start + collisions) % 0x1_0000_0000,
        start + collisions <= u32::MAX ==> score_after(start, collisions) == start + collisions,
    decreases collisions,
{
    if collisions > 0 {
        lemma_score_after(start, (collisions - 1) as nat);
    }
}

/// A fresh score equals the number of collisions while that number fits, and
/// one collision at the largest score gives zero.
pub proof fn lemma_score_counts_collisions(collisions: nat)
    ensures
        collisions <= u32::MAX ==> score_after(0, collisions) == collisions,
        next_score(u32::MAX) == 0,
        score_after(u32::MAX, 1) == 0,
{
    lemma_score_after(0, collisions);
    reveal_with_fuel(score_after, 2);
}

/// Whether `byte` is an ASCII decimal digit.
pub open spec fn is_digit(byte: u8) -> bool {
    0x30 <= byte <= 0x39
}

/// Whether `text` consists of ASCII decimal digits only.
pub open spec fn all_digits(text: Seq<u8>) -> bool {
    forall|i: int| 0 <= i < text.len() ==> is_digit(#[trigger] text[i])
}

/// The number that the digits of `text` denote, most significant first.
pub open spec fn decimal_value(text: Seq<u8>) -> nat
    decreases text.len(),
{
    if text.len() == 0 {
        0
    } else {
        decimal_value(text.drop_last()) * 10 + (text.last() - 0x30) as nat
    }
}

/// The decimal text of `n`: its digits without leading zeros, and `0` for
/// zero.
pub open spec fn decimal(n: nat) -> Seq<u8>
    decreases n,
{
    if n < 10 {
        seq![(0x30 + n) as u8]
    } else {
        decimal(n / 10).push((0x30 + n % 10) as u8)
    }
}

/// The decimal text of a number is made of digits and denotes that number.
pub proof fn lemma_decimal_round_trip(n: nat)
    ensures
        decimal(n).len() > 0,
        all_digits(decimal(n)),
        decimal_value(decimal(n)) == n,
    decreases n,
{
    if n < 10 {
        let text = decimal(n);
        assert(text.drop_last() =~= Seq::<u8>::empty());
        assert(decimal_value(text.drop_last()) == 0);
    } else {
        lemma_decimal_round_trip(n / 10);
        let head = decimal(n / 10);
        let text = decimal(n);
        assert(text.drop_last() =~= head);
        assert forall|i: int| 0 <= i < text.len() implies is_digit(#[trigger] text[i]) by {
            if i < head.len() {
                assert(text[i] == head[i]);
            }
        }
    }
}

/// Why a stored high score could not be read.
#[derive(Clone, Copy, Debug, PartialEq, Eq, Structural)]
pub enum ScoreError {
    /// The text is empty.
    Empty,
    /// The text holds a byte that is not a decimal digit.
    InvalidDigit,
    /// The digits denote a number too large for a score.
    Overflow,
}

/// What reading `text` as a stored high score gives.
pub open spec fn parsed(text: Seq<u8>) -> Result<u32, ScoreError> {
    if text.len() == 0 {
        Err(ScoreError::Empty)
    } else if !all_digits(text) {
        Err(ScoreError::InvalidDigit)
    } else if decimal_value(text) > u32::MAX {
        Err(ScoreError::Overflow)
    } else {
        Ok(decimal_value(text) as u32)
    }
}

/// Reads a stored high score: one decimal number in ASCII digits, with
/// nothing before or after it.
pub fn parse_high_score(text: &[u8]) -> (outcome: Result<u32, ScoreError>)
    ensures
        outcome == parsed(text@),
{
    let n: usize = text.len();
    if n == 0 {
        return Err(ScoreError::Empty);
    }
    let mut value: u64 = 0;
    let mut too_large: bool = false;
    let mut i: usize = 0;
    while i < n
        invariant
            n == text@.len(),
            i <= n,
            all_digits(text@.take(i as int)),
            value <= u32::MAX,
            !too_large ==> value == decimal_value(text@.take(i as int)),
            too_large ==> decimal_value(text@.take(i as int)) > u32::MAX,
        decreases n - i,
    {
        let byte: u8 = text[i];
        if byte < 0x30 || byte > 0x39 {
            assert(!is_digit(text@[i as int]));
            return Err(ScoreError::InvalidDigit);
        }
        proof {
            let longer = text@.take(i + 1);
            assert(longer.drop_last() =~= text@.take(i as int));
            assert(longer.last() == byte);
            assert forall|j: int| 0 <= j < longer.len() implies is_digit(#[trigger] longer[j]) by {
                if j < i {
                    assert(longer[j] == text@.take(i as int)[j]);
                }
            }
        }
        if !too_large {
            let next: u64 = value * 10 + (byte - 0x30) as u64;
            if next > 0xffff_ffff {
                too_large = true;
                value = 0;
            } else {
                value = next;
            }
        }
        i += 1;
    }
    assert(text@.take(n as int) =~= text@);
    if too_large {
        Err(ScoreError::Overflow)
    } else {
        Ok(value as u32)
    }
}

/// Writes `score` as decimal text.
pub fn format_score(score: u32) -> (text: Vec<u8>)
    ensures
        text@ == decimal(score as nat),
    decreases score,
{
    if score < 10 {
        let mut text: Vec<u8> = Vec::new();
        text.push(0x30 + score as u8);
        assert(text@ =~= decimal(score as nat));
        text
    } else {
        let mut text: Vec<u8> = format_score(score / 10);
        text.push(0x30 + (score % 10) as u8);
        text
    }
}

/// Decides what to store when a session ends with `score` while
/// `high_score` is on record: the text of the new high score, or nothing
/// when the record stands.
pub fn check_score(score: u32, high_score: u32) -> (stored: Option<Vec<u8>>)
    ensures
        stored is Some <==> score > high_score,
        stored matches Some(text) ==> text@ == decimal(score as nat),
{
    if score > high_score {
        Some(format_score(score))
    } else {
        None
    }
}

/// How a finished session is announced.
#[derive(Clone, Copy, Debug, PartialEq, Eq, Structural)]
pub enum Verdict {
    /// The score beats the record.
    NewHighScore { score: u32 },
    /// The record stands.
    GameOver { score: u32, high_score: u32 },
}

/// The score of the running session and the high score on record.
pub struct ScoreModel {
    pub score: u32,
    pub high_score: u32,
}

impl ScoreModel {
    /// The record is beaten only by a strictly greater score.
    pub open spec fn beats_record(self) -> bool {
        self.score > self.high_score
    }

    pub open spec fn collided(self) -> ScoreModel {
        ScoreModel { score: next_score(self.score), ..self }
    }

    pub open spec fn verdict(self) -> Verdict {
        if self.beats_record() {
            Verdict::NewHighScore { score: self.score }
        } else {
            Verdict::GameOver { score: self.score, high_score: self.high_score }
        }
    }

    /// The scores once the session is over: a beaten record is replaced.
    pub open spec fn settled(self) -> ScoreModel {
        if self.beats_record() {
            ScoreModel { high_score: self.score, ..self }
        } else {
            self
        }
    }
}

/// Settling changes the record exactly when the score is strictly greater,
/// and the text to store is then the decimal text of the score.
pub proof fn lemma_record_changes_iff_beaten(m: ScoreModel)
    ensures
        m.settled().high_score != m.high_score <==> m.score > m.high_score,
        m.settled().high_score >= m.high_score,
        m.settled().score == m.score,
        m.score > m.high_score ==> parsed(decimal(m.score as nat)) == Ok::<u32, ScoreError>(
            m.settled().high_score,
        ),
{
    lemma_decimal_round_trip(m.score as nat);
}

/// Counts collisions and remembers the high score that was loaded.
pub struct ScoreTracker {
    score: u32,
    high_score: u32,
}

impl View for ScoreTracker {
    type V = ScoreModel;

    closed spec fn view(&self) -> ScoreModel {
        ScoreModel { score: self.score, high_score: self.high_score }
    }
}

impl ScoreTracker {
    /// A tracker at score zero with `high_score` on record.
    pub fn new(high_score: u32) -> (tracker: ScoreTracker)
        ensures
            tracker@ == (ScoreModel { score: 0, high_score }),
    {
        ScoreTracker { score: 0, high_score }
    }

    /// A tracker in the middle of a session.
    pub fn resume(score: u32, high_score: u32) -> (tracker: ScoreTracker)
        ensures
            tracker@ == (ScoreModel { score, high_score }),
    {
        ScoreTracker { score, high_score }
    }

    /// A tracker at score zero whose record is read from `text`.
    pub fn load(text: &[u8]) -> (outcome: Result<ScoreTracker, ScoreError>)
        ensures
            match parsed(text@) {
                Ok(high_score) => outcome matches Ok(tracker) && tracker@ == (ScoreModel {
                    score: 0,
                    high_score,
                }),
                Err(why) => outcome matches Err(e) && e == why,
            },
    {
        match parse_high_score(text) {
            Ok(high_score) => Ok(ScoreTracker::new(high_score)),
            Err(why) => Err(why),
        }
    }

    /// Counts one collision.
    pub fn record_collision(&mut self)
        ensures
            final(self)@ == old(self)@.collided(),
    {
        self.score = self.score.wrapping_add(1);
    }

    pub fn score(&self) -> (score: u32)
        ensures
            score == self@.score,
    {
        self.score
    }

    pub fn high_score(&self) -> (high_score: u32)
        ensures
            high_score == self@.high_score,
    {
        self.high_score
    }

    /// Ends the session: says how it went and what to store, and takes a
    /// beaten record over.
    pub fn settle(&mut self) -> (outcome: (Verdict, Option<Vec<u8>>))
        ensures
            final(self)@ == old(self)@.settled(),
            outcome.0 == old(self)@.verdict(),
            outcome.1 is Some <==> old(self)@.beats_record(),
            outcome.1 matches Some(text) ==> text@ == decimal(old(self)@.score as nat),
    {
        let stored: Option<Vec<u8>> = check_score(self.score, self.high_score);
        if self.score > self.high_score {
            let verdict = Verdict::NewHighScore { score: self.score };
            self.high_score = self.score;
            (verdict, stored)
        } else {
            (Verdict::GameOver { score: self.score, high_score: self.high_score }, stored)
        }
    }
}

} // verus!
