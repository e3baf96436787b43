use rust_tutorial::choice::ParseError;
use rust_tutorial::machine::transition;
use rust_tutorial::machine::Event;
use rust_tutorial::machine::State;

#[test]
fn rendering_awaits_input() {
    assert_eq!(transition(State::Running, Event::Rendered), State::AwaitingInput);
}

#[test]
fn exit_choice_terminates() {
    assert_eq!(transition(State::AwaitingInput, Event::Read(Ok(0))), State::Terminated);
}

#[test]
fn non_zero_choice_dispatches() {
    assert_eq!(transition(State::AwaitingInput, Event::Read(Ok(5))), State::Dispatching);
    assert_eq!(transition(State::AwaitingInput, Event::Read(Ok(-3))), State::Dispatching);
    assert_eq!(transition(State::AwaitingInput, Event::Read(Ok(99))), State::Dispatching);
}

#[test]
fn parse_failure_returns_to_running() {
    assert_eq!(
        transition(State::AwaitingInput, Event::Read(Err(ParseError))),
        State::Running
    );
}

#[test]
fn handling_returns_to_running() {
    assert_eq!(transition(State::Dispatching, Event::Handled), State::Running);
}

#[test]
fn terminated_is_final() {
    assert_eq!(transition(State::Terminated, Event::Rendered), State::Terminated);
    assert_eq!(transition(State::Terminated, Event::Read(Ok(1))), State::Terminated);
    assert_eq!(
        transition(State::Terminated, Event::Read(Err(ParseError))),
        State::Terminated
    );
    assert_eq!(transition(State::Terminated, Event::Handled), State::Terminated);
}

#[test]
fn an_invalid_choice_round_never_terminates() {
    // render, read an out-of-range number, handle the report: the loop is
    // running again
    let s = transition(State::Running, Event::Rendered);
    let s = transition(s, Event::Read(Ok(99)));
    let s = transition(s, Event::Handled);
    assert_eq!(s, State::Running);
}

#[test]
fn a_parse_failure_round_never_terminates() {
    let s = transition(State::Running, Event::Rendered);
    let s = transition(s, Event::Read(Err(ParseError)));
    assert_eq!(s, State::Running);
}
