//! Runtime support for an LLM-driven coding agent: the text tool protocol,
//! the message list sent to the model, build-system knowledge and the
//! interpretation of version-control output.

pub mod agenttools;
pub mod aiagentloop;
pub mod aimessage;
pub mod config;
pub mod json;
pub mod json_text;
pub mod repostate;
pub mod runtimetools;
pub mod tasks;
pub mod text;
pub mod utils;
pub mod vc;
pub mod workflows;
pub mod cli;
