//! Verified core of a timed arithmetic quiz.
//!
//! The library holds the two pure parts of the game: a problem generator,
//! which turns random draws into an arithmetic expression together with its
//! exact integer answer, and a round state machine, which consumes submitted
//! answers and timer ticks and tracks score, counters and the countdown.
//! Rendering and input are left to the surrounding application.

pub mod expr;
pub mod parse;
pub mod problem;
pub mod quiz;
mod rng;
