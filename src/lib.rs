//! Unattended disk-health remediation for a storage node: a per-device
//! diagnostic state machine over a declared transition table, the decisions
//! of its actions, and the workflows that report failed disks and re-admit
//! replaced ones.
pub mod action;
pub mod config;
pub mod device;
pub mod engine;
pub mod enumerate;
pub mod graph;
pub mod orchestrate;
pub mod state;
