use rust_tutorial::menu::TOPIC_COUNT;
use rust_tutorial::session::run_session;
use rust_tutorial::session::SessionEvent;

fn lines(input: &[&str]) -> Vec<String> {
    input.iter().map(|s| s.to_string()).collect()
}

#[test]
fn topic_then_exit() {
    // "1" then "0": banner, menu, topic 1, divider, menu again, goodbye
    let events = run_session(&lines(&["1", "0"]), TOPIC_COUNT);
    assert_eq!(
        events,
        vec![
            SessionEvent::Banner,
            SessionEvent::Menu,
            SessionEvent::TopicRun(1),
            SessionEvent::Divider,
            SessionEvent::Menu,
            SessionEvent::Goodbye,
        ]
    );
}

#[test]
fn invalid_choice_then_exit() {
    // "99" then "0": the out-of-range choice is reported and the loop
    // continues to a clean exit
    let events = run_session(&lines(&["99", "0"]), TOPIC_COUNT);
    assert_eq!(
        events,
        vec![
            SessionEvent::Banner,
            SessionEvent::Menu,
            SessionEvent::InvalidChoice,
            SessionEvent::Divider,
            SessionEvent::Menu,
            SessionEvent::Goodbye,
        ]
    );
}

#[test]
fn parse_error_then_topic_then_exit() {
    // "banana" is reported as a parse error, "5" still runs topic 5, "0"
    // exits
    let events = run_session(&lines(&["banana", "5", "0"]), TOPIC_COUNT);
    assert_eq!(
        events,
        vec![
            SessionEvent::Banner,
            SessionEvent::Menu,
            SessionEvent::ParseFailure,
            SessionEvent::Menu,
            SessionEvent::TopicRun(5),
            SessionEvent::Divider,
            SessionEvent::Menu,
            SessionEvent::Goodbye,
        ]
    );
}

#[test]
fn end_of_input_exits_gracefully() {
    let events = run_session(&lines(&[]), TOPIC_COUNT);
    assert_eq!(
        events,
        vec![SessionEvent::Banner, SessionEvent::Menu, SessionEvent::Goodbye]
    );
}

#[test]
fn nothing_follows_the_exit_choice() {
    let events = run_session(&lines(&["0", "3", "7"]), TOPIC_COUNT);
    assert_eq!(
        events,
        vec![SessionEvent::Banner, SessionEvent::Menu, SessionEvent::Goodbye]
    );
}

#[test]
fn repeating_a_topic_produces_identical_rounds() {
    // the same choice twice in succession: both rounds emit the very same
    // events
    let events = run_session(&lines(&["7", "7", "0"]), TOPIC_COUNT);
    let first_round = &events[1..4];
    let second_round = &events[4..7];
    assert_eq!(first_round, second_round);
    assert_eq!(
        first_round,
        &[SessionEvent::Menu, SessionEvent::TopicRun(7), SessionEvent::Divider]
    );
    assert_eq!(events[7..], [SessionEvent::Menu, SessionEvent::Goodbye]);
}

#[test]
fn whitespace_around_a_choice_is_ignored() {
    let events = run_session(&lines(&["  12  ", "0"]), TOPIC_COUNT);
    assert_eq!(events[2], SessionEvent::TopicRun(12));
}

#[test]
fn negative_choices_are_invalid_not_fatal() {
    let events = run_session(&lines(&["-1", "0"]), TOPIC_COUNT);
    assert_eq!(
        events,
        vec![
            SessionEvent::Banner,
            SessionEvent::Menu,
            SessionEvent::InvalidChoice,
            SessionEvent::Divider,
            SessionEvent::Menu,
            SessionEvent::Goodbye,
        ]
    );
}

#[test]
fn integers_beyond_i32_are_invalid_choices_not_parse_failures() {
    for huge in ["99999999999", "-3000000000", "2147483648", "99999999999999999999"] {
        let events = run_session(&lines(&[huge, "0"]), TOPIC_COUNT);
        assert_eq!(
            events,
            vec![
                SessionEvent::Banner,
                SessionEvent::Menu,
                SessionEvent::InvalidChoice,
                SessionEvent::Divider,
                SessionEvent::Menu,
                SessionEvent::Goodbye,
            ],
            "input {:?}",
            huge
        );
    }
}

#[test]
fn unicode_whitespace_around_a_choice_is_ignored() {
    let events = run_session(&lines(&["\u{00A0}5\u{3000}", "0"]), TOPIC_COUNT);
    assert_eq!(events[2], SessionEvent::TopicRun(5));
}
