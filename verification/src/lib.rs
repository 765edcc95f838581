//! A single-slot poll: one stored record holding a question, a fixed ordered
//! set of candidate options, and a running vote count per option.
//!
//! The state machine lives in [`poll::PollContract`]; its behaviour is stated
//! over the mathematical model in [`model`], and the general laws of the
//! operations are proved in [`laws`].

pub mod laws;
pub mod model;
pub mod poll;
