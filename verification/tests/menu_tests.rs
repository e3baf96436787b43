use rust_tutorial::menu::dispatch;
use rust_tutorial::menu::MenuAction;
use rust_tutorial::menu::TOPIC_COUNT;

#[test]
fn zero_dispatches_to_exit() {
    assert_eq!(dispatch(0, TOPIC_COUNT), MenuAction::Exit);
}

#[test]
fn every_valid_choice_runs_its_own_topic() {
    for c in 1..=15 {
        assert_eq!(dispatch(c, TOPIC_COUNT), MenuAction::RunTopic(c as usize));
    }
}

#[test]
fn out_of_range_choices_are_invalid() {
    assert_eq!(dispatch(-1, TOPIC_COUNT), MenuAction::Invalid);
    assert_eq!(dispatch(16, TOPIC_COUNT), MenuAction::Invalid);
    assert_eq!(dispatch(1000, TOPIC_COUNT), MenuAction::Invalid);
    assert_eq!(dispatch(i32::MIN, TOPIC_COUNT), MenuAction::Invalid);
    assert_eq!(dispatch(i32::MAX, TOPIC_COUNT), MenuAction::Invalid);
}

#[test]
fn dispatch_respects_a_smaller_menu() {
    assert_eq!(dispatch(3, 3), MenuAction::RunTopic(3));
    assert_eq!(dispatch(4, 3), MenuAction::Invalid);
    assert_eq!(dispatch(0, 3), MenuAction::Exit);
}
