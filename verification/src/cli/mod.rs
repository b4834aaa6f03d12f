//! The command line of the agent.

pub mod commandline;
