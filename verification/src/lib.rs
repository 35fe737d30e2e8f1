//! Building blocks for Model Context Protocol tools: the [`Tool`] trait, the
//! [`McpError`] type for tool execution errors, and the history of tool calls.

pub mod clock;
pub mod error;
pub mod history_laws;
pub mod history_runs;
pub mod json;
pub mod lines;
pub mod text;
pub mod tool;
pub mod tool_history;

pub use crate::error::McpError;
pub use crate::tool::{Tool, ToolExecutionContext};
