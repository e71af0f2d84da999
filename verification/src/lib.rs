//! A tool that delegates coding tasks to the Grok Build CLI (`grok -p`, headless).
//!
//! The library decides; it does no outside work itself. `GrokCliTool::execute` starts a call and
//! says which outside work comes next: resolving a directory, running the CLI. What came of that
//! work goes back into the library, until the call is answered.
pub mod command;
pub mod config;
pub mod json;
pub mod laws;
pub mod output;
pub mod path;
pub mod result;
pub mod schema;
pub mod text;
pub mod tool;

pub use command::{Launch, Request};
pub use config::{GrokCliConfig, SecurityPolicy, ToolOperation};
pub use result::{Outcome, ToolError, ToolResult};
pub use tool::{CallArgs, DirectoryCheck, GrokCliTool, Step, WorkspaceCheck};
