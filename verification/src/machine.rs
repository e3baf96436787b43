//! The state machine of the main loop.
//!
//! The controller runs a read-evaluate-print loop: render the menu, read a
//! line, parse it, dispatch. These states and transitions describe that
//! loop exactly: a parse failure or an invalid choice returns the loop to
//! [`State::Running`], and only the exit sentinel `0` ever reaches
//! [`State::Terminated`].

use vstd::prelude::*;

use crate::choice::ParseError;

verus! {

/// Where the main loop stands.
#[derive(Clone, Copy, Debug, PartialEq, Eq, Structural)]
pub enum State {
    /// About to render the menu for the next round.
    Running,
    /// The menu is on screen; the loop is blocked on a line of input.
    AwaitingInput,
    /// A non-zero choice was parsed and is being dispatched.
    Dispatching,
    /// The exit sentinel was chosen; the loop is over.
    Terminated,
}

/// What happened to the main loop.
#[derive(Clone, Copy, Debug, PartialEq, Eq)]
pub enum Event {
    /// The menu was rendered and a prompt shown.
    Rendered,
    /// A line was read and parsed, successfully or not.
    Read(Result<i32, ParseError>),
    /// The dispatched choice was handled: a topic ran, or an invalid
    /// choice was reported.
    Handled,
}

/// The transition relation of the loop, as a mathematical function. Any
/// event that a state does not react to leaves it unchanged; in
/// particular, `Terminated` is final.
pub open spec fn spec_transition(state: State, event: Event) -> State {
    match (state, event) {
        (State::Running, Event::Rendered) => State::AwaitingInput,
        (State::AwaitingInput, Event::Read(outcome)) => match outcome {
            Err(_) => State::Running,
            Ok(choice) => if choice == 0 {
                State::Terminated
            } else {
                State::Dispatching
            },
        },
        (State::Dispatching, Event::Handled) => State::Running,
        (s, _) => s,
    }
}

/// Advance the loop's state by one event.
pub fn transition(state: State, event: Event) -> (next: State)
    ensures
        next == spec_transition(state, event),
{
    match (state, event) {
        (State::Running, Event::Rendered) => State::AwaitingInput,
        (State::AwaitingInput, Event::Read(outcome)) => match outcome {
            Err(_) => State::Running,
            Ok(choice) => if choice == 0 {
                State::Terminated
            } else {
                State::Dispatching
            },
        },
        (State::Dispatching, Event::Handled) => State::Running,
        (s, _) => s,
    }
}

/// The exit sentinel, and nothing else that a read can produce, terminates
/// the loop.
pub proof fn lemma_only_exit_terminates(outcome: Result<i32, ParseError>)
    ensures
        spec_transition(State::AwaitingInput, Event::Read(outcome)) == State::Terminated
            <==> outcome == Ok::<i32, ParseError>(0),
{
}

/// After a parse failure the loop is running again: it reports the error
/// and reprompts rather than terminating.
pub proof fn lemma_parse_failure_keeps_running(error: ParseError)
    ensures
        spec_transition(State::AwaitingInput, Event::Read(Err(error))) == State::Running,
{
}

/// Dispatching any non-zero choice, valid or not, brings the loop back to
/// `Running` once the choice is handled: an out-of-range choice is
/// reported and the loop continues.
pub proof fn lemma_dispatch_returns_to_running(choice: i32)
    requires
        choice != 0,
    ensures
        spec_transition(
            spec_transition(State::AwaitingInput, Event::Read(Ok(choice))),
            Event::Handled,
        ) == State::Running,
{
}

/// `Terminated` is final: no event leaves it.
pub proof fn lemma_terminated_is_final(event: Event)
    ensures
        spec_transition(State::Terminated, event) == State::Terminated,
{
}

} // verus!
