use guessing_game::outcome::{classify, Outcome};
use guessing_game::parse::ParseError;
use guessing_game::play::play;
use guessing_game::session::{respond, GuessSession, Reply, Status};

fn script(lines: &[&str]) -> Vec<String> {
    lines.iter().map(|line| line.to_string()).collect()
}

#[test]
fn equal_guess_is_correct() {
    assert_eq!(classify(42, 42), Outcome::Correct);
    assert_eq!(classify(0, 0), Outcome::Correct);
    assert_eq!(classify(u32::MAX, u32::MAX), Outcome::Correct);
}

#[test]
fn smaller_guess_is_too_low_and_larger_is_too_high() {
    assert_eq!(classify(25, 42), Outcome::TooLow);
    assert_eq!(classify(41, 42), Outcome::TooLow);
    assert_eq!(classify(0, u32::MAX), Outcome::TooLow);
    assert_eq!(classify(50, 42), Outcome::TooHigh);
    assert_eq!(classify(43, 42), Outcome::TooHigh);
    assert_eq!(classify(u32::MAX, 0), Outcome::TooHigh);
}

#[test]
fn classification_follows_the_order_on_a_grid() {
    let mut target: u32 = 1;
    while target <= 100 {
        let mut guess: u32 = 0;
        while guess <= 101 {
            let expected = if guess < target {
                Outcome::TooLow
            } else if guess > target {
                Outcome::TooHigh
            } else {
                Outcome::Correct
            };
            assert_eq!(classify(guess, target), expected);
            guess += 1;
        }
        target += 1;
    }
}

#[test]
fn messages_are_worded_as_the_game_words_them() {
    assert_eq!(Outcome::TooLow.message(), "Too small!");
    assert_eq!(Outcome::TooHigh.message(), "Too Large!");
    assert_eq!(Outcome::Correct.message(), "You win!");
    assert_eq!(Reply::Judged(Outcome::TooLow).message(), "Too small!");
    assert_eq!(Reply::Judged(Outcome::TooHigh).message(), "Too Large!");
    assert_eq!(Reply::Judged(Outcome::Correct).message(), "You win!");
    assert_eq!(Reply::Rejected(ParseError::NotANumber).message(), "problem here");
    assert_eq!(Reply::Rejected(ParseError::OutOfRange).message(), "problem here");
}

#[test]
fn respond_parses_then_compares() {
    assert_eq!(respond(42, "50\n"), Reply::Judged(Outcome::TooHigh));
    assert_eq!(respond(42, " 25 "), Reply::Judged(Outcome::TooLow));
    assert_eq!(respond(42, "+42"), Reply::Judged(Outcome::Correct));
    assert_eq!(respond(42, "forty-two"), Reply::Rejected(ParseError::NotANumber));
    assert_eq!(respond(42, "4294967296"), Reply::Rejected(ParseError::OutOfRange));
}

#[test]
fn new_session_awaits_a_guess() {
    let session = GuessSession::new(42);
    assert_eq!(session.target(), 42);
    assert_eq!(session.status(), Status::AwaitingGuess);
}

#[test]
fn started_session_draws_its_target_from_the_range() {
    let mut seen_low = false;
    let mut seen_high = false;
    let mut round = 0;
    while round < 2000 {
        let session = GuessSession::start(1, 100);
        assert!(1 <= session.target() && session.target() <= 100);
        assert_eq!(session.status(), Status::AwaitingGuess);
        if session.target() <= 50 {
            seen_low = true;
        } else {
            seen_high = true;
        }
        round += 1;
    }
    assert!(seen_low && seen_high);
}

#[test]
fn started_session_on_a_single_value_has_that_target() {
    assert_eq!(GuessSession::start(7, 7).target(), 7);
    assert_eq!(GuessSession::start(0, 0).target(), 0);
    assert_eq!(GuessSession::start(u32::MAX, u32::MAX).target(), u32::MAX);
}

#[test]
fn started_session_handles_the_widest_range() {
    let mut round = 0;
    while round < 100 {
        let session = GuessSession::start(0, u32::MAX);
        assert_eq!(session.status(), Status::AwaitingGuess);
        let session = GuessSession::start(u32::MAX - 1, u32::MAX);
        assert!(session.target() >= u32::MAX - 1);
        round += 1;
    }
}

#[test]
fn correct_guess_terminates_after_any_number_of_wrong_ones() {
    let mut wrong_before = 0;
    while wrong_before < 50 {
        let mut session = GuessSession::new(42);
        let mut i: u32 = 0;
        while i < wrong_before {
            let guess = if i % 2 == 0 { i % 40 } else { 50 + i };
            let expected = if guess < 42 { Outcome::TooLow } else { Outcome::TooHigh };
            assert_eq!(session.submit(&guess.to_string()), Some(Reply::Judged(expected)));
            assert_eq!(session.status(), Status::AwaitingGuess);
            i += 1;
        }
        assert_eq!(session.submit("42"), Some(Reply::Judged(Outcome::Correct)));
        assert_eq!(session.status(), Status::Terminated);
        wrong_before += 1;
    }
}

#[test]
fn malformed_lines_neither_end_the_session_nor_touch_the_target() {
    let mut session = GuessSession::new(42);
    for line in ["abc", "", "12.5", "-1", "  ", "4294967296"].iter() {
        let reply = session.submit(line);
        assert!(matches!(reply, Some(Reply::Rejected(_))));
        assert_eq!(session.status(), Status::AwaitingGuess);
        assert_eq!(session.target(), 42);
    }
    assert_eq!(session.submit("12.5"), Some(Reply::Rejected(ParseError::NotANumber)));
    assert_eq!(session.submit("4294967296"), Some(Reply::Rejected(ParseError::OutOfRange)));
    assert_eq!(session.submit("42"), Some(Reply::Judged(Outcome::Correct)));
    assert_eq!(session.status(), Status::Terminated);
}

#[test]
fn target_stays_the_same_through_a_session() {
    let mut session = GuessSession::new(73);
    let mut guess: u32 = 0;
    while guess <= 200 {
        if guess != 73 {
            session.submit(&guess.to_string());
            assert_eq!(session.target(), 73);
            assert_eq!(session.status(), Status::AwaitingGuess);
        }
        guess += 1;
    }
    session.submit("73");
    assert_eq!(session.target(), 73);
    session.close();
    assert_eq!(session.target(), 73);
}

#[test]
fn closing_the_input_aborts_a_waiting_session() {
    let mut session = GuessSession::new(42);
    session.close();
    assert_eq!(session.status(), Status::Aborted);
    assert_eq!(session.target(), 42);
}

#[test]
fn ended_session_ignores_what_follows() {
    let mut session = GuessSession::new(42);
    assert_eq!(session.submit("42"), Some(Reply::Judged(Outcome::Correct)));
    assert_eq!(session.submit("42"), None);
    assert_eq!(session.submit("7"), None);
    session.close();
    assert_eq!(session.status(), Status::Terminated);

    let mut session = GuessSession::new(42);
    session.close();
    assert_eq!(session.submit("42"), None);
    assert_eq!(session.status(), Status::Aborted);
    session.close();
    assert_eq!(session.status(), Status::Aborted);
}

#[test]
fn scenario_three_guesses_then_win() {
    let transcript = play(42, &script(&["50", "25", "42"]));
    assert_eq!(
        transcript.replies,
        vec![
            Reply::Judged(Outcome::TooHigh),
            Reply::Judged(Outcome::TooLow),
            Reply::Judged(Outcome::Correct),
        ]
    );
    assert_eq!(transcript.status, Status::Terminated);
    assert_eq!(transcript.valid_guesses(), 3);
}

#[test]
fn scenario_three_guesses_then_win_step_by_step() {
    let mut session = GuessSession::new(42);
    assert_eq!(session.submit("50"), Some(Reply::Judged(Outcome::TooHigh)));
    assert_eq!(session.status(), Status::AwaitingGuess);
    assert_eq!(session.submit("25"), Some(Reply::Judged(Outcome::TooLow)));
    assert_eq!(session.status(), Status::AwaitingGuess);
    assert_eq!(session.submit("42"), Some(Reply::Judged(Outcome::Correct)));
    assert_eq!(session.status(), Status::Terminated);
}

#[test]
fn scenario_malformed_line_then_win() {
    let transcript = play(42, &script(&["banana", "42"]));
    assert_eq!(
        transcript.replies,
        vec![Reply::Rejected(ParseError::NotANumber), Reply::Judged(Outcome::Correct)]
    );
    assert_eq!(transcript.status, Status::Terminated);
    assert_eq!(transcript.valid_guesses(), 1);
}

#[test]
fn scenario_input_ends_before_any_guess() {
    let transcript = play(42, &script(&[]));
    assert!(transcript.replies.is_empty());
    assert_eq!(transcript.status, Status::Aborted);
    assert_ne!(transcript.status, Status::Terminated);
    assert_eq!(transcript.valid_guesses(), 0);
}

#[test]
fn input_that_ends_after_wrong_guesses_aborts() {
    let transcript = play(42, &script(&["1", "x", "100", "", "41"]));
    assert_eq!(
        transcript.replies,
        vec![
            Reply::Judged(Outcome::TooLow),
            Reply::Rejected(ParseError::NotANumber),
            Reply::Judged(Outcome::TooHigh),
            Reply::Rejected(ParseError::NotANumber),
            Reply::Judged(Outcome::TooLow),
        ]
    );
    assert_eq!(transcript.status, Status::Aborted);
    assert_eq!(transcript.valid_guesses(), 3);
}

#[test]
fn lines_after_the_win_are_not_read() {
    let transcript = play(42, &script(&["43", "42", "1", "banana", "42"]));
    assert_eq!(
        transcript.replies,
        vec![Reply::Judged(Outcome::TooHigh), Reply::Judged(Outcome::Correct)]
    );
    assert_eq!(transcript.status, Status::Terminated);
    assert_eq!(transcript.valid_guesses(), 2);
}

#[test]
fn lines_are_read_as_they_come_from_a_terminal() {
    let transcript = play(42, &script(&["50\n", " 25\r\n", "\n", "42\n"]));
    assert_eq!(
        transcript.replies,
        vec![
            Reply::Judged(Outcome::TooHigh),
            Reply::Judged(Outcome::TooLow),
            Reply::Rejected(ParseError::NotANumber),
            Reply::Judged(Outcome::Correct),
        ]
    );
    assert_eq!(transcript.status, Status::Terminated);
    assert_eq!(transcript.valid_guesses(), 3);
}

#[test]
fn play_agrees_with_a_session_fed_line_by_line() {
    let lines = script(&["9", "nine", "99", "+42", "42"]);
    let transcript = play(42, &lines);
    let mut session = GuessSession::new(42);
    let mut replies = Vec::new();
    for line in lines.iter() {
        if let Some(reply) = session.submit(line) {
            replies.push(reply);
        }
    }
    session.close();
    assert_eq!(transcript.replies, replies);
    assert_eq!(transcript.status, session.status());
}
