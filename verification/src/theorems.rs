//! What holds of every session, proved over the mathematical model.

use vstd::prelude::*;
use crate::outcome::{outcome_of, Outcome};
use crate::parse::parsed_guess;
use crate::session::{holds_target, reply_to, Reply, SessionState, Status};

verus! {

/// A guess is judged correct exactly when it is the target, too low exactly
/// when it is smaller, and too high exactly when it is larger.
pub proof fn lemma_outcome_follows_order(guess: int, target: int)
    ensures
        outcome_of(guess, target) == Outcome::Correct <==> guess == target,
        outcome_of(guess, target) == Outcome::TooLow <==> guess < target,
        outcome_of(guess, target) == Outcome::TooHigh <==> guess > target,
{
}

/// The target of a session never changes: not by any number of lines, whatever
/// they hold, and not by closing the input.
pub proof fn lemma_target_is_fixed(state: SessionState, lines: Seq<Seq<char>>)
    ensures
        state.after_lines(lines).target == state.target,
        state.after_lines(lines).after_close().target == state.target,
    decreases lines.len(),
{
    if lines.len() > 0 {
        lemma_target_is_fixed(state, lines.drop_last());
    }
}

/// Lines that do not hold the target leave the session as it was, and a
/// session that awaits a guess answers each of them.
pub proof fn lemma_wrong_lines_keep_session(state: SessionState, lines: Seq<Seq<char>>)
    requires
        forall|i: int| 0 <= i < lines.len() ==> !holds_target(state.target, #[trigger] lines[i]),
    ensures
        state.after_lines(lines) == state,
        state.status == Status::AwaitingGuess ==> state.replies_to(lines).len() == lines.len(),
        state.status == Status::AwaitingGuess ==> forall|i: int|
            0 <= i < lines.len() ==> #[trigger] state.replies_to(lines)[i] == reply_to(
                state.target,
                lines[i],
            ),
    decreases lines.len(),
{
    if lines.len() > 0 {
        let earlier = lines.drop_last();
        assert forall|i: int| 0 <= i < earlier.len() implies !holds_target(
            state.target,
            #[trigger] earlier[i],
        ) by {
            assert(earlier[i] == lines[i]);
        }
        lemma_wrong_lines_keep_session(state, earlier);
        assert(!holds_target(state.target, lines.last()));
    }
}

/// The line that holds the target is judged correct and ends the session on
/// that very line, however many wrong or malformed lines came before it.
pub proof fn lemma_correct_guess_ends_session(
    state: SessionState,
    before: Seq<Seq<char>>,
    line: Seq<char>,
)
    requires
        state.status == Status::AwaitingGuess,
        forall|i: int| 0 <= i < before.len() ==> !holds_target(state.target, #[trigger] before[i]),
        holds_target(state.target, line),
    ensures
        state.after_lines(before).status == Status::AwaitingGuess,
        reply_to(state.target, line) == Reply::Judged(Outcome::Correct),
        state.after_lines(before.push(line)).status == Status::Terminated,
        state.replies_to(before.push(line)).len() == before.len() + 1,
        state.replies_to(before.push(line)).last() == Reply::Judged(Outcome::Correct),
{
    lemma_wrong_lines_keep_session(state, before);
    assert(before.push(line).drop_last() =~= before);
    assert(before.push(line).last() == line);
}

/// A malformed line is rejected, ends nothing and changes nothing: after any
/// number of them the session is as it was, and each was answered with a
/// rejection.
pub proof fn lemma_malformed_lines_change_nothing(state: SessionState, lines: Seq<Seq<char>>)
    requires
        forall|i: int| 0 <= i < lines.len() ==> parsed_guess(#[trigger] lines[i]) is Err,
    ensures
        state.after_lines(lines) == state,
        state.status == Status::AwaitingGuess ==> state.replies_to(lines).len() == lines.len(),
        state.status == Status::AwaitingGuess ==> forall|i: int|
            0 <= i < lines.len() ==> (#[trigger] state.replies_to(lines)[i]) is Rejected,
{
    lemma_wrong_lines_keep_session(state, lines);
    if state.status == Status::AwaitingGuess {
        assert forall|i: int| 0 <= i < lines.len() implies (#[trigger] state.replies_to(
            lines,
        )[i]) is Rejected by {
            assert(parsed_guess(lines[i]) is Err);
        }
    }
}

/// A session is terminated exactly when a line held the target while it was
/// awaiting a guess, and lines alone never abort it.
pub proof fn lemma_terminated_iff_guessed(state: SessionState, lines: Seq<Seq<char>>)
    requires
        state.status == Status::AwaitingGuess,
    ensures
        state.after_lines(lines).status == Status::Terminated <==> exists|i: int|
            0 <= i < lines.len() && holds_target(state.target, #[trigger] lines[i]),
        state.after_lines(lines).status != Status::Aborted,
        state.after_lines(lines).after_close().status == Status::Aborted <==> !exists|i: int|
            0 <= i < lines.len() && holds_target(state.target, #[trigger] lines[i]),
    decreases lines.len(),
{
    if lines.len() > 0 {
        let earlier = lines.drop_last();
        lemma_terminated_iff_guessed(state, earlier);
        lemma_target_is_fixed(state, earlier);
        if exists|i: int| 0 <= i < earlier.len() && holds_target(state.target, #[trigger] earlier[i]) {
            let i = choose|i: int|
                0 <= i < earlier.len() && holds_target(state.target, #[trigger] earlier[i]);
            assert(lines[i] == earlier[i]);
        } else if holds_target(state.target, lines.last()) {
            assert(lines[lines.len() - 1] == lines.last());
        } else {
            assert forall|i: int| 0 <= i < lines.len() implies !holds_target(
                state.target,
                #[trigger] lines[i],
            ) by {
                if i < earlier.len() {
                    assert(earlier[i] == lines[i]);
                }
            }
        }
    }
}

/// A session that has ended stays as it is and gives no more answers, whatever
/// lines follow.
pub proof fn lemma_ended_session_ignores_lines(
    state: SessionState,
    lines: Seq<Seq<char>>,
    read: int,
)
    requires
        0 <= read <= lines.len(),
        state.after_lines(lines.take(read)).status != Status::AwaitingGuess,
    ensures
        state.after_lines(lines) == state.after_lines(lines.take(read)),
        state.replies_to(lines) == state.replies_to(lines.take(read)),
    decreases lines.len() - read,
{
    if read == lines.len() {
        assert(lines.take(read) =~= lines);
    } else {
        let shorter = lines.drop_last();
        assert(shorter.take(read) =~= lines.take(read));
        lemma_ended_session_ignores_lines(state, shorter, read);
    }
}

/// The answers of a session that awaits a guess follow the lines one for one,
/// up to and including the first line that holds the target. Only that line is
/// judged correct, and it is the last one answered.
pub proof fn lemma_replies_answer_lines(state: SessionState, lines: Seq<Seq<char>>)
    requires
        state.status == Status::AwaitingGuess,
    ensures
        state.replies_to(lines).len() <= lines.len(),
        forall|i: int|
            0 <= i < state.replies_to(lines).len() ==> #[trigger] state.replies_to(lines)[i]
                == reply_to(state.target, lines[i]),
        forall|i: int|
            0 <= i < state.replies_to(lines).len() - 1 ==> !holds_target(
                state.target,
                #[trigger] lines[i],
            ),
        state.after_lines(lines).status == Status::AwaitingGuess ==> state.replies_to(lines).len()
            == lines.len(),
        state.after_lines(lines).status == Status::Terminated ==> state.replies_to(lines).len() > 0
            && state.replies_to(lines).last() == Reply::Judged(Outcome::Correct),
    decreases lines.len(),
{
    if lines.len() > 0 {
        let earlier = lines.drop_last();
        lemma_replies_answer_lines(state, earlier);
        lemma_target_is_fixed(state, earlier);
        lemma_terminated_iff_guessed(state, earlier);
        assert forall|i: int| 0 <= i < earlier.len() implies earlier[i] == lines[i] by {}
    }
}

} // verus!
