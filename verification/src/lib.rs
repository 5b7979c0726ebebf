//! Session engines for a terminal gaming hub: a number-guessing round over
//! a secret in `[1, 100]`, a word-guessing round with per-position letter
//! feedback, and a two-phase reflex round with an adaptive threshold. Each
//! engine is a state machine over plain values; the surrounding program
//! supplies the input lines, the clock readings and the fetched word lists,
//! and receives one score record per completed round for the persistence
//! port described in `store`.

pub mod guessing;
pub mod motus;
pub mod reflex;
mod rng;
pub mod store;
pub mod text;
