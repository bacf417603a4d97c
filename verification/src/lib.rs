//! Core of a sandboxed code-judging service: directory provisioning state
//! machines, task orchestration with stop-on-failure, fixed-format report
//! parsing, a tolerant output comparator, and a verdict state machine.
pub mod text;
pub mod compare;
pub mod results;
pub mod dir_utils;
pub mod report;
pub mod judger;
