//! A whole game over a script of input lines.

use vstd::prelude::*;
use crate::outcome::Outcome;
use crate::session::{holds_target, reply_to, GuessSession, Reply, SessionState, Status};
use crate::theorems::{
    lemma_ended_session_ignores_lines, lemma_replies_answer_lines, lemma_terminated_iff_guessed,
};

verus! {

/// What happened in a game: the answers given, in order, and how it ended.
#[derive(Debug)]
pub struct Transcript {
    /// One answer for each line that was read.
    pub replies: Vec<Reply>,
    /// How the game ended: `Terminated` or `Aborted`.
    pub status: Status,
}

/// The text of each line.
pub open spec fn texts(lines: Seq<String>) -> Seq<Seq<char>> {
    lines.map_values(|line: String| line@)
}

/// How many of the replies answer a line that held a guess.
pub open spec fn count_judged(replies: Seq<Reply>) -> nat
    decreases replies.len(),
{
    if replies.len() == 0 {
        0
    } else {
        count_judged(replies.drop_last()) + if replies.last() is Judged {
            1nat
        } else {
            0nat
        }
    }
}

/// Plays a game with the given target over a script of input lines.
///
/// The lines are read in order until one of them holds the target, which ends
/// the game as `Terminated`. If none does, the input is closed after the last
/// line and the game ends as `Aborted`. Each line read is answered; lines after
/// the one that holds the target are not read.
pub fn play(target: u32, lines: &Vec<String>) -> (transcript: Transcript)
    ensures
        transcript.replies@ == SessionState::fresh(target).replies_to(texts(lines@)),
        transcript.status == SessionState::fresh(target).after_lines(
            texts(lines@),
        ).after_close().status,
        transcript.status == Status::Terminated <==> exists|i: int|
            0 <= i < lines.len() && holds_target(target, #[trigger] lines[i]@),
        transcript.status == Status::Aborted <==> !exists|i: int|
            0 <= i < lines.len() && holds_target(target, #[trigger] lines[i]@),
        transcript.replies.len() <= lines.len(),
        forall|i: int|
            0 <= i < transcript.replies.len() ==> #[trigger] transcript.replies[i] == reply_to(
                target,
                lines[i]@,
            ),
        forall|i: int|
            0 <= i < transcript.replies.len() - 1 ==> !holds_target(target, #[trigger] lines[i]@),
        transcript.status == Status::Aborted ==> transcript.replies.len() == lines.len(),
        transcript.status == Status::Terminated ==> transcript.replies.len() > 0
            && transcript.replies[transcript.replies.len() - 1] == Reply::Judged(Outcome::Correct),
{
    let ghost fresh = SessionState::fresh(target);
    let ghost script = texts(lines@);
    let mut session = GuessSession::new(target);
    let mut replies: Vec<Reply> = Vec::new();
    let mut read: usize = 0;
    proof {
        assert(script.take(0) =~= Seq::<Seq<char>>::empty());
    }
    while read < lines.len() && session.status() == Status::AwaitingGuess
        invariant
            read <= lines.len(),
            script == texts(lines@),
            fresh == SessionState::fresh(target),
            session@ == fresh.after_lines(script.take(read as int)),
            session@.target == target,
            replies@ == fresh.replies_to(script.take(read as int)),
        decreases lines.len() - read,
    {
        proof {
            assert(script.take(read + 1).drop_last() =~= script.take(read as int));
            assert(script.take(read + 1).last() == lines@[read as int]@);
        }
        let reply = session.submit(lines[read].as_str());
        match reply {
            Some(reply) => {
                replies.push(reply);
            },
            None => {},
        }
        read += 1;
    }
    proof {
        if read < lines.len() {
            lemma_ended_session_ignores_lines(fresh, script, read as int);
        } else {
            assert(script.take(read as int) =~= script);
        }
        lemma_terminated_iff_guessed(fresh, script);
        lemma_replies_answer_lines(fresh, script);
        assert forall|i: int| 0 <= i < lines.len() implies script[i] == #[trigger] lines[i]@ by {}
    }
    session.close();
    Transcript { replies, status: session.status() }
}

impl Transcript {
    /// How many lines held a guess.
    pub fn valid_guesses(&self) -> (count: usize)
        ensures
            count == count_judged(self.replies@),
    {
        let mut count: usize = 0;
        let mut i: usize = 0;
        while i < self.replies.len()
            invariant
                i <= self.replies.len(),
                count <= i,
                count == count_judged(self.replies@.take(i as int)),
            decreases self.replies.len() - i,
        {
            proof {
                assert(self.replies@.take(i + 1).drop_last() =~= self.replies@.take(i as int));
            }
            match self.replies[i] {
                Reply::Judged(_) => {
                    count += 1;
                },
                Reply::Rejected(_) => {},
            }
            i += 1;
        }
        proof {
            assert(self.replies@.take(i as int) =~= self.replies@);
        }
        count
    }
}

} // verus!
