//! The three-way comparison of a guess with the target.

use vstd::prelude::*;

verus! {

/// How a guess relates to the target.
#[derive(Clone, Copy, Debug, PartialEq, Eq, Structural)]
pub enum Outcome {
    /// The guess is smaller than the target.
    TooLow,
    /// The guess is larger than the target.
    TooHigh,
    /// The guess is the target.
    Correct,
}

/// The outcome of guessing `guess` when the target is `target`.
pub open spec fn outcome_of(guess: int, target: int) -> Outcome {
    if guess < target {
        Outcome::TooLow
    } else if guess > target {
        Outcome::TooHigh
    } else {
        Outcome::Correct
    }
}

/// Compares a guess with the target.
pub fn classify(guess: u32, target: u32) -> (outcome: Outcome)
    ensures
        outcome == outcome_of(guess as int, target as int),
        outcome == Outcome::Correct <==> guess == target,
        outcome == Outcome::TooLow <==> guess < target,
        outcome == Outcome::TooHigh <==> guess > target,
{
    if guess < target {
        Outcome::TooLow
    } else if guess > target {
        Outcome::TooHigh
    } else {
        Outcome::Correct
    }
}

impl Outcome {
    /// The text shown to the player for this outcome.
    pub open spec fn message_text(self) -> Seq<char> {
        match self {
            Outcome::TooLow => "Too small!"@,
            Outcome::TooHigh => "Too Large!"@,
            Outcome::Correct => "You win!"@,
        }
    }

    /// The text shown to the player for this outcome.
    pub fn message(&self) -> (text: &'static str)
        ensures
            text@ == self.message_text(),
    {
        match self {
            Outcome::TooLow => "Too small!",
            Outcome::TooHigh => "Too Large!",
            Outcome::Correct => "You win!",
        }
    }
}

} // verus!
