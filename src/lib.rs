//! Orchestration core of a deployment tool: it renders the commands that push
//! a store path to a remote host, and decides, stage by stage, what to run
//! next from the outcome of what ran before.

pub mod action;
pub mod command;
pub mod deploy;
pub mod laws;
pub mod stage;
pub mod text;
