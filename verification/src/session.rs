//! The guessing session: a secret target and the state of the game.
//!
//! A session starts out awaiting a guess. Each line of input is answered with a
//! [`Reply`]; the line that holds the target ends the session as
//! [`Status::Terminated`]. When the input is closed first, the session ends as
//! [`Status::Aborted`]. A session that has ended ignores what comes after.

use vstd::prelude::*;
use crate::outcome::{classify, outcome_of, Outcome};
use crate::parse::{parse_guess, parsed_guess, ParseError};
use crate::random::random_in_range;

verus! {

/// The answer to one line of input.
#[derive(Clone, Copy, Debug, PartialEq, Eq, Structural)]
pub enum Reply {
    /// The line held no guess. It does not count; the player is asked again.
    Rejected(ParseError),
    /// The line held a guess, which compares to the target like this.
    Judged(Outcome),
}

/// Where a session stands.
#[derive(Clone, Copy, Debug, PartialEq, Eq, Structural)]
pub enum Status {
    /// The target has not been guessed yet and the input is open.
    AwaitingGuess,
    /// The target was guessed.
    Terminated,
    /// The input was closed before the target was guessed.
    Aborted,
}

/// Whether `line` holds exactly the number `target`.
pub open spec fn holds_target(target: u32, line: Seq<char>) -> bool {
    parsed_guess(line) == Ok::<u32, ParseError>(target)
}

/// The answer that a session with this target gives to a line.
pub open spec fn reply_to(target: u32, line: Seq<char>) -> Reply {
    match parsed_guess(line) {
        Ok(guess) => Reply::Judged(outcome_of(guess as int, target as int)),
        Err(error) => Reply::Rejected(error),
    }
}

/// Answers a line of input for a given target.
pub fn respond(target: u32, line: &str) -> (reply: Reply)
    ensures
        reply == reply_to(target, line@),
        reply == Reply::Judged(Outcome::Correct) <==> holds_target(target, line@),
{
    match parse_guess(line) {
        Ok(guess) => Reply::Judged(classify(guess, target)),
        Err(error) => Reply::Rejected(error),
    }
}

impl Reply {
    /// The text shown to the player for this reply.
    pub open spec fn message_text(self) -> Seq<char> {
        match self {
            Reply::Rejected(_) => "problem here"@,
            Reply::Judged(outcome) => outcome.message_text(),
        }
    }

    /// The text shown to the player for this reply.
    pub fn message(&self) -> (text: &'static str)
        ensures
            text@ == self.message_text(),
    {
        match self {
            Reply::Rejected(_) => "problem here",
            Reply::Judged(outcome) => outcome.message(),
        }
    }
}

/// What a session is, as a mathematical value.
pub struct SessionState {
    /// The secret number.
    pub target: u32,
    /// Where the session stands.
    pub status: Status,
}

impl SessionState {
    /// A session that has just begun.
    pub open spec fn fresh(target: u32) -> SessionState {
        SessionState { target, status: Status::AwaitingGuess }
    }

    /// The session after one line of input.
    pub open spec fn after_line(self, line: Seq<char>) -> SessionState {
        if self.status == Status::AwaitingGuess && holds_target(self.target, line) {
            SessionState { target: self.target, status: Status::Terminated }
        } else {
            self
        }
    }

    /// The session after the input was closed.
    pub open spec fn after_close(self) -> SessionState {
        if self.status == Status::AwaitingGuess {
            SessionState { target: self.target, status: Status::Aborted }
        } else {
            self
        }
    }

    /// The session after several lines of input, taken in order.
    pub open spec fn after_lines(self, lines: Seq<Seq<char>>) -> SessionState
        decreases lines.len(),
    {
        if lines.len() == 0 {
            self
        } else {
            self.after_lines(lines.drop_last()).after_line(lines.last())
        }
    }

    /// The answers that the session gives to several lines of input, in order.
    /// Lines that come after the end of the session get no answer.
    pub open spec fn replies_to(self, lines: Seq<Seq<char>>) -> Seq<Reply>
        decreases lines.len(),
    {
        if lines.len() == 0 {
            Seq::empty()
        } else {
            let earlier = self.replies_to(lines.drop_last());
            if self.after_lines(lines.drop_last()).status == Status::AwaitingGuess {
                earlier.push(reply_to(self.target, lines.last()))
            } else {
                earlier
            }
        }
    }
}

/// A running game: the secret target and where the game stands.
#[derive(Debug)]
pub struct GuessSession {
    target: u32,
    status: Status,
}

impl View for GuessSession {
    type V = SessionState;

    closed spec fn view(&self) -> SessionState {
        SessionState { target: self.target, status: self.status }
    }
}

impl GuessSession {
    /// A session with the given target, awaiting its first guess.
    pub fn new(target: u32) -> (session: GuessSession)
        ensures
            session@ == SessionState::fresh(target),
    {
        GuessSession { target, status: Status::AwaitingGuess }
    }

    /// A session whose target is drawn at random from `min..=max`.
    pub fn start(min: u32, max: u32) -> (session: GuessSession)
        requires
            min <= max,
        ensures
            min <= session@.target <= max,
            session@.status == Status::AwaitingGuess,
    {
        let mut rng = rand::thread_rng();
        let target = random_in_range(&mut rng, min, max);
        GuessSession::new(target)
    }

    /// The secret number.
    pub fn target(&self) -> (target: u32)
        ensures
            target == self@.target,
    {
        self.target
    }

    /// Where the session stands.
    pub fn status(&self) -> (status: Status)
        ensures
            status == self@.status,
    {
        self.status
    }

    /// Takes one line of input and answers it.
    ///
    /// A line that holds no number is rejected and changes nothing. A number is
    /// compared with the target; the target itself ends the session. The
    /// answer is `None` when the session had already ended.
    pub fn submit(&mut self, line: &str) -> (reply: Option<Reply>)
        ensures
            final(self)@ == old(self)@.after_line(line@),
            final(self)@.target == old(self)@.target,
            reply == if old(self)@.status == Status::AwaitingGuess {
                Some(reply_to(old(self)@.target, line@))
            } else {
                None
            },
            final(self)@.status == Status::Terminated <==> old(self)@.status == Status::Terminated
                || reply == Some(Reply::Judged(Outcome::Correct)),
            old(self)@.status == Status::AwaitingGuess && holds_target(old(self)@.target, line@)
                ==> reply == Some(Reply::Judged(Outcome::Correct)) && final(self)@.status
                == Status::Terminated,
            parsed_guess(line@) is Err ==> final(self)@ == old(self)@,
    {
        match self.status {
            Status::AwaitingGuess => {
                let reply = respond(self.target, line);
                match reply {
                    Reply::Judged(Outcome::Correct) => {
                        self.status = Status::Terminated;
                    },
                    _ => {},
                }
                Some(reply)
            },
            _ => None,
        }
    }

    /// Tells the session that the input can supply no further line.
    ///
    /// A session that was awaiting a guess is aborted; one that had ended stays
    /// as it was.
    pub fn close(&mut self)
        ensures
            final(self)@ == old(self)@.after_close(),
            final(self)@.target == old(self)@.target,
            final(self)@.status != Status::AwaitingGuess,
    {
        match self.status {
            Status::AwaitingGuess => {
                self.status = Status::Aborted;
            },
            _ => {},
        }
    }
}

} // verus!
