//! Small utilities shared by the tools and workflows.

pub mod doprocess;
pub mod jsonutils;
pub mod paths;
pub mod simplerandom;
pub mod stringutils;
