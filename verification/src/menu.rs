//! The dispatch rule of the menu controller.
//!
//! A menu choice is an integer read from the user. Choice `0` is the exit
//! sentinel; choices `1..=TOPIC_COUNT` each select one topic; everything
//! else is invalid and leaves the session running.

use vstd::prelude::*;

use crate::choice::saturate_i32;

verus! {

/// How many topics the menu offers.
pub const TOPIC_COUNT: usize = 15;

/// What the controller does with one parsed menu choice.
#[derive(Clone, Copy, Debug, PartialEq, Eq, Structural)]
pub enum MenuAction {
    /// The choice was the exit sentinel `0`: the loop terminates.
    Exit,
    /// The choice selected the topic with this 1-based index: run exactly
    /// that topic's handler.
    RunTopic(usize),
    /// The choice was outside `0..=num_topics`: report it and go on.
    Invalid,
}

/// The dispatch rule as a mathematical function of the choice and the
/// number of topics on the menu.
pub open spec fn spec_dispatch(choice: int, num_topics: int) -> MenuAction {
    if choice == 0 {
        MenuAction::Exit
    } else if 1 <= choice && choice <= num_topics {
        MenuAction::RunTopic(choice as usize)
    } else {
        MenuAction::Invalid
    }
}

/// Classify one parsed menu choice: exit on `0`, the topic at index
/// `choice` when `1 <= choice <= num_topics`, invalid otherwise.
pub fn dispatch(choice: i32, num_topics: usize) -> (action: MenuAction)
    ensures
        action == spec_dispatch(choice as int, num_topics as int),
{
    if choice == 0 {
        MenuAction::Exit
    } else if choice >= 1 && choice as usize <= num_topics {
        MenuAction::RunTopic(choice as usize)
    } else {
        MenuAction::Invalid
    }
}

/// Every valid choice selects exactly the topic with its own index, and no
/// choice selects a topic whose index differs from it.
pub proof fn lemma_dispatch_selects_chosen_topic(choice: int, num_topics: int)
    requires
        1 <= choice <= num_topics,
        num_topics <= usize::MAX,
    ensures
        spec_dispatch(choice, num_topics) == MenuAction::RunTopic(choice as usize),
        forall|other: usize|
            spec_dispatch(choice, num_topics) == MenuAction::RunTopic(other)
                ==> other == choice as usize,
{
}

/// The exit sentinel always dispatches to termination and never to a topic.
pub proof fn lemma_exit_runs_no_handler(num_topics: int)
    ensures
        spec_dispatch(0, num_topics) == MenuAction::Exit,
        forall|k: usize| spec_dispatch(0, num_topics) != MenuAction::RunTopic(k),
{
}

/// Saturating a choice to the `i32` range never changes what `dispatch`
/// does, for any menu a machine can hold: a value beyond either bound is
/// out of range before and after clamping, and every in-range choice is
/// left untouched.
pub proof fn lemma_saturation_preserves_dispatch(choice: int, num_topics: int)
    requires
        num_topics < i32::MAX as int,
    ensures
        spec_dispatch(saturate_i32(choice), num_topics) == spec_dispatch(choice, num_topics),
{
}

/// Every choice outside `0..=num_topics` is reported as invalid and runs no
/// handler.
pub proof fn lemma_out_of_range_is_invalid(choice: int, num_topics: int)
    requires
        choice != 0,
        choice < 0 || choice > num_topics,
    ensures
        spec_dispatch(choice, num_topics) == MenuAction::Invalid,
        forall|k: usize| spec_dispatch(choice, num_topics) != MenuAction::RunTopic(k),
{
}

} // verus!
