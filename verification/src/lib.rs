//! Exercise-runner core: a manifest of exercises, completion detection via a
//! sentinel marker, construction of the external checker invocation, and the
//! verification sweep that aggregates completion and pass counts.

pub mod check;
pub mod cli;
pub mod detect;
pub mod orchestrate;
pub mod registry;
