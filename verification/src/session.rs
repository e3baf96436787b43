//! A pure model of one whole interactive session.
//!
//! Given the lines a user types, [`run_session`] replays the main loop and
//! returns the sequence of things the program does: banner, menu rounds,
//! topic runs, error reports, goodbye. The loop ends on the exit sentinel
//! `0`; when the input runs out first, the session ends as gracefully as
//! an explicit exit. A line holding an integer of any magnitude is a
//! parsed choice: one beyond the menu — even beyond the machine's integers
//! — is reported as an invalid choice, while only a line that is no
//! integer at all is a parse failure.

use vstd::prelude::*;

use crate::choice::integer_literal_value;
use crate::choice::is_integer_literal;
use crate::choice::read_choice;
use crate::choice::saturate_i32;
use crate::choice::trimmed;
use crate::menu::dispatch;
use crate::menu::lemma_saturation_preserves_dispatch;
use crate::menu::spec_dispatch;
use crate::menu::MenuAction;

verus! {

/// One observable step of a session, in the order the program takes them.
#[derive(Clone, Copy, Debug, PartialEq, Eq, Structural)]
pub enum SessionEvent {
    /// The welcome banner, printed once at startup.
    Banner,
    /// One rendering of the topic menu and its prompt.
    Menu,
    /// The topic with this 1-based index ran.
    TopicRun(usize),
    /// An out-of-range choice was reported.
    InvalidChoice,
    /// A line that did not parse as a number was reported.
    ParseFailure,
    /// The divider printed after a dispatched choice.
    Divider,
    /// The goodbye banner; the session is over.
    Goodbye,
}

/// The integer an input line parses to, when it parses at all: the exact
/// value of its trimmed form, of any magnitude.
pub open spec fn spec_parsed_choice(line: Seq<char>) -> Option<int> {
    if is_integer_literal(trimmed(line)) {
        Some(integer_literal_value(trimmed(line)))
    } else {
        None
    }
}

/// The events of one round of the loop: the menu, then whatever reading
/// and dispatching one input line does.
pub open spec fn spec_round_events(line: Seq<char>, num_topics: int) -> Seq<SessionEvent> {
    match spec_parsed_choice(line) {
        None => seq![SessionEvent::Menu, SessionEvent::ParseFailure],
        Some(choice) => if choice == 0 {
            seq![SessionEvent::Menu, SessionEvent::Goodbye]
        } else if 1 <= choice && choice <= num_topics {
            seq![SessionEvent::Menu, SessionEvent::TopicRun(choice as usize), SessionEvent::Divider]
        } else {
            seq![SessionEvent::Menu, SessionEvent::InvalidChoice, SessionEvent::Divider]
        },
    }
}

/// The input line parses to the exit sentinel.
pub open spec fn spec_is_exit_line(line: Seq<char>) -> bool {
    spec_parsed_choice(line) == Some(0int)
}

/// The events of a session from one menu rendering on, given the input
/// lines still to be read. A missing next line — the input ran out — ends
/// the session as an exit would.
pub open spec fn spec_session_tail(lines: Seq<Seq<char>>, num_topics: int) -> Seq<SessionEvent>
    decreases lines.len(),
{
    if lines.len() == 0 {
        seq![SessionEvent::Menu, SessionEvent::Goodbye]
    } else if spec_is_exit_line(lines[0]) {
        spec_round_events(lines[0], num_topics)
    } else {
        spec_round_events(lines[0], num_topics) + spec_session_tail(
            lines.drop_first(),
            num_topics,
        )
    }
}

/// Every event of a session fed the given input lines: the banner, then
/// menu rounds until an exit choice or the end of the input.
pub open spec fn spec_session(lines: Seq<Seq<char>>, num_topics: int) -> Seq<SessionEvent> {
    seq![SessionEvent::Banner] + spec_session_tail(lines, num_topics)
}

/// Replay the main loop on the given input lines and return everything it
/// does, in order. The menu must be smaller than `i32::MAX`, so that a
/// choice saturated to the machine's integers dispatches as its true value
/// would.
pub fn run_session(lines: &Vec<String>, num_topics: usize) -> (events: Vec<SessionEvent>)
    requires
        num_topics < i32::MAX as usize,
    ensures
        events@ == spec_session(lines.deep_view(), num_topics as int),
{
    let ghost all = lines.deep_view();
    let ghost goal = spec_session(all, num_topics as int);
    let mut events: Vec<SessionEvent> = Vec::new();
    events.push(SessionEvent::Banner);
    proof {
        assert(all.skip(0) =~= all);
        assert(events@ + spec_session_tail(all, num_topics as int) =~= goal);
    }
    let mut terminated = false;
    let mut i: usize = 0;
    while i < lines.len() && !terminated
        invariant
            0 <= i <= lines.len(),
            num_topics < i32::MAX as usize,
            all == lines.deep_view(),
            goal == spec_session(all, num_topics as int),
            !terminated ==> events@ + spec_session_tail(all.skip(i as int), num_topics as int)
                == goal,
            terminated ==> events@ == goal,
        decreases lines.len() - i,
    {
        let ghost tail = all.skip(i as int);
        let ghost before = events@;
        proof {
            assert(tail.len() == lines@.len() - i);
            assert(tail[0] == lines@[i as int]@);
            assert(tail.drop_first() =~= all.skip(i as int + 1));
        }
        events.push(SessionEvent::Menu);
        let line: &String = &lines[i];
        match read_choice(line.as_str()) {
            Err(_) => {
                events.push(SessionEvent::ParseFailure);
                proof {
                    assert(spec_parsed_choice(tail[0]) is None);
                    assert(events@ =~= before + seq![
                        SessionEvent::Menu,
                        SessionEvent::ParseFailure,
                    ]);
                    assert(events@ + spec_session_tail(all.skip(i as int + 1), num_topics as int)
                        =~= goal);
                }
            },
            Ok(choice) => {
                let ghost x = integer_literal_value(trimmed(tail[0]));
                proof {
                    assert(spec_parsed_choice(tail[0]) == Some(x));
                    assert(choice as int == saturate_i32(x));
                    lemma_saturation_preserves_dispatch(x, num_topics as int);
                    assert(spec_dispatch(choice as int, num_topics as int) == spec_dispatch(
                        x,
                        num_topics as int,
                    ));
                }
                match dispatch(choice, num_topics) {
                    MenuAction::Exit => {
                        events.push(SessionEvent::Goodbye);
                        terminated = true;
                        proof {
                            assert(x == 0);
                            assert(events@ =~= before + seq![
                                SessionEvent::Menu,
                                SessionEvent::Goodbye,
                            ]);
                            assert(events@ =~= goal);
                        }
                    },
                    MenuAction::RunTopic(index) => {
                        events.push(SessionEvent::TopicRun(index));
                        events.push(SessionEvent::Divider);
                        proof {
                            assert(1 <= x <= num_topics && index == x as usize);
                            assert(events@ =~= before + seq![
                                SessionEvent::Menu,
                                SessionEvent::TopicRun(index),
                                SessionEvent::Divider,
                            ]);
                            assert(events@ + spec_session_tail(
                                all.skip(i as int + 1),
                                num_topics as int,
                            ) =~= goal);
                        }
                    },
                    MenuAction::Invalid => {
                        events.push(SessionEvent::InvalidChoice);
                        events.push(SessionEvent::Divider);
                        proof {
                            assert(x != 0 && (x < 1 || x > num_topics));
                            assert(events@ =~= before + seq![
                                SessionEvent::Menu,
                                SessionEvent::InvalidChoice,
                                SessionEvent::Divider,
                            ]);
                            assert(events@ + spec_session_tail(
                                all.skip(i as int + 1),
                                num_topics as int,
                            ) =~= goal);
                        }
                    },
                }
            },
        }
        i = i + 1;
    }
    if !terminated {
        proof {
            assert(all.skip(i as int) =~= Seq::<Seq<char>>::empty());
        }
        let ghost before = events@;
        events.push(SessionEvent::Menu);
        events.push(SessionEvent::Goodbye);
        proof {
            assert(events@ =~= before + seq![SessionEvent::Menu, SessionEvent::Goodbye]);
            assert(events@ =~= goal);
        }
    }
    events
}

/// A line that does not parse never ends the session: the loop reports the
/// failure and goes on to handle the remaining input unchanged.
pub proof fn lemma_parse_failure_continues(line: Seq<char>, rest: Seq<Seq<char>>, num_topics: int)
    requires
        spec_parsed_choice(line) is None,
    ensures
        spec_session_tail(seq![line] + rest, num_topics) == seq![
            SessionEvent::Menu,
            SessionEvent::ParseFailure,
        ] + spec_session_tail(rest, num_topics),
{
    let lines = seq![line] + rest;
    assert(lines[0] == line);
    assert(lines.drop_first() =~= rest);
}

/// An out-of-range choice never ends the session: the loop reports it,
/// prints the divider, and goes on to handle the remaining input
/// unchanged.
pub proof fn lemma_invalid_choice_continues(
    line: Seq<char>,
    rest: Seq<Seq<char>>,
    choice: int,
    num_topics: int,
)
    requires
        spec_parsed_choice(line) == Some(choice),
        choice != 0,
        choice < 1 || choice > num_topics,
    ensures
        spec_session_tail(seq![line] + rest, num_topics) == seq![
            SessionEvent::Menu,
            SessionEvent::InvalidChoice,
            SessionEvent::Divider,
        ] + spec_session_tail(rest, num_topics),
{
    let lines = seq![line] + rest;
    assert(lines[0] == line);
    assert(lines.drop_first() =~= rest);
}

/// An integer beyond the `i32` range is still a parsed integer, and it is
/// out of range for any menu the machine can hold: the loop reports an
/// invalid choice — not a parse failure — and goes on.
pub proof fn lemma_beyond_i32_is_invalid_choice(
    line: Seq<char>,
    rest: Seq<Seq<char>>,
    choice: int,
    num_topics: int,
)
    requires
        spec_parsed_choice(line) == Some(choice),
        choice < i32::MIN as int || choice > i32::MAX as int,
        0 <= num_topics <= i32::MAX as int,
    ensures
        spec_session_tail(seq![line] + rest, num_topics) == seq![
            SessionEvent::Menu,
            SessionEvent::InvalidChoice,
            SessionEvent::Divider,
        ] + spec_session_tail(rest, num_topics),
{
    lemma_invalid_choice_continues(line, rest, choice, num_topics);
}

/// Handling a choice is idempotent: the same non-exit line submitted twice
/// in succession produces the very same events both times, with the rest
/// of the session unchanged — no round leaves hidden state behind.
pub proof fn lemma_repeated_line_same_events(
    line: Seq<char>,
    rest: Seq<Seq<char>>,
    num_topics: int,
)
    requires
        !spec_is_exit_line(line),
    ensures
        spec_session_tail(seq![line, line] + rest, num_topics) == spec_round_events(
            line,
            num_topics,
        ) + spec_round_events(line, num_topics) + spec_session_tail(rest, num_topics),
{
    let twice = seq![line, line] + rest;
    let once = seq![line] + rest;
    assert(twice[0] == line);
    assert(twice.drop_first() =~= once);
    assert(once[0] == line);
    assert(once.drop_first() =~= rest);
    assert(spec_session_tail(once, num_topics) == spec_round_events(line, num_topics)
        + spec_session_tail(rest, num_topics));
    assert(spec_session_tail(twice, num_topics) == spec_round_events(line, num_topics)
        + spec_session_tail(once, num_topics));
    assert(spec_round_events(line, num_topics) + (spec_round_events(line, num_topics)
        + spec_session_tail(rest, num_topics)) =~= spec_round_events(line, num_topics)
        + spec_round_events(line, num_topics) + spec_session_tail(rest, num_topics));
}

} // verus!
