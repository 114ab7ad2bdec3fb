//! The rules of a small arcade game, stated and proved.
//!
//! A player box is steered inside a bounded arena and scores by touching a
//! roaming orb. Each touch moves the orb, picks a new display colour and
//! starts a short tone. A session lasts a fixed time; its score is compared
//! with the stored high score when it ends.
//!
//! Every quantity is an integer. Times are counted in ticks and tick
//! fractions, volumes in thousandths, the phase of the tone in samples.

pub mod audio;
pub mod geometry;
pub mod orb;
pub mod player;
pub mod random;
pub mod score;
pub mod session;
pub mod timers;
