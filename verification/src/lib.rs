//! The verified core of an interactive command-line tutorial.
//!
//! The program is a menu-driven loop: it prints a banner, renders a
//! numbered list of topics, reads a line of input, parses it to an
//! integer, and either exits on `0`, runs the chosen topic, or reports an
//! invalid choice and goes on. This crate holds that controller as
//! verified code:
//!
//! - [`choice`] — trimming a line and parsing it as a menu choice;
//! - [`menu`] — the dispatch rule from a parsed choice to an action;
//! - [`machine`] — the loop's state machine, with only the exit sentinel
//!   ever reaching the terminal state;
//! - [`render`] — the exact text the controller prints: banner, menu,
//!   prompt, error messages, divider, goodbye;
//! - [`session`] — a pure replay of a whole session from its input lines.
//!
//! The small demonstration helpers that the topic walkthroughs call —
//! [`borrowing`], [`functions`], [`hash_map`], [`ownership`], [`tuples`]
//! — are verified here as well. The topic walkthroughs themselves only
//! print fixed explanatory text and live with the binary around this
//! library.

pub mod borrowing;
pub mod choice;
pub mod functions;
pub mod hash_map;
pub mod machine;
pub mod menu;
pub mod ownership;
pub mod render;
pub mod session;
pub mod tuples;
