//! Control-plane core of a node-management CLI: node registry, replayable
//! per-node startup log, and the decisions around one portal-creation
//! request sent to a node manager.

pub mod snippet;
pub mod startup;
pub mod config;
pub mod protocol;
pub mod portal;
pub mod runner;
