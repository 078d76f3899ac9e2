//! A number-guessing game as a verified library.
//!
//! A [`session::GuessSession`] owns a secret target. Each line of input is
//! read by [`parse::parse_guess`] and, when it holds a number, compared with
//! the target by [`outcome::classify`]. The session ends when the target is
//! guessed or when the input is closed. [`play::play`] runs a whole game over
//! a script of lines, and [`theorems`] holds what is proved of every session.
//!
//! The library decides and never reads or prints: the caller hands it each
//! line and shows the answer. Only [`session::GuessSession::start`] reaches
//! outside, to the `rand` crate for the target; [`random`] says what is
//! assumed of it.
//!
//! [`basics`] is apart from the game: a few small functions on integers and
//! strings, each with its contract.

pub mod basics;
pub mod outcome;
pub mod parse;
pub mod play;
pub mod random;
pub mod session;
pub mod theorems;
