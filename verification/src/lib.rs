//! Verified core of an MCP server that lets text-only language models
//! describe images, video and audio through the `agy` command line tool.

pub mod agy;
pub mod cli;
pub mod error;
pub mod input;
pub mod models;
pub mod probe;
pub mod prompts;
pub mod server;
pub mod text;
