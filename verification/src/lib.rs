//! The rules of maestro: how work is delegated, gated, verified, merged and
//! reported.

pub mod advise;
pub mod attempt;
pub mod attempt_laws;
pub mod budget;
pub mod cli;
pub mod client;
pub mod clock;
pub mod config;
pub mod containment;
pub mod credentials;
pub mod cut;
pub mod daemon;
pub mod delegate;
pub mod digest;
pub mod domain;
pub mod fault;
pub mod gate;
pub mod git;
pub mod glob;
pub mod init;
pub mod json;
pub mod locate;
pub mod merge;
pub mod model_auth;
pub mod payload;
pub mod pipeline;
pub mod progress;
pub mod prompt;
pub mod resolve;
pub mod roles;
pub mod server;
pub mod shim;
pub mod startup;
pub mod table;
pub mod task;
pub mod text;
pub mod verify_checkout;
pub mod worktree;
