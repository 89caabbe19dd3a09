//! End-to-end scenarios for a lightning node against a BTK chain: the decisions.
//!
//! A scenario is a plan of steps. A run of it says what to do next and judges
//! each reply; the program around the library talks to the chain, the nodes and
//! the clock, and hands the replies back.

pub mod channel;
pub mod failure;
pub mod funding;
pub mod header;
pub mod hexadecimal;
pub mod json;
pub mod laws;
pub mod order;
pub mod plan;
pub mod protocol;
pub mod rules;
pub mod run;
pub mod state;
pub mod steps;
pub mod text;
pub mod waits;
