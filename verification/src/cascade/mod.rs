//! The cascade: a flow of rounds, each a conversational turn made of steps.
//!
//! A flow creates rounds and a round creates steps. A step's value, once
//! the step has run, is the flow's current result, which later rounds and
//! the calling workflow read.

pub mod error;
pub mod flow;
pub mod round;
pub mod step;
