//! Wickle's data contracts and the decisions of its agent driver, with their
//! invariants stated as contracts and proved.
pub mod error;
pub mod values;
pub mod run;
pub mod profile;
pub mod message;
pub mod model;
pub mod snapshot;
pub mod agent;
pub mod anthropic;
