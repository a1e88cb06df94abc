//! Configuration-driven command dispatcher for a guided-commit workflow
//! tool.
//!
//! The library holds the pure core: the typed configuration model, the
//! resolver that merges CLI arguments with per-action configuration
//! overrides, the commit-message template engine, and the dispatcher
//! that maps an action name to a task plan. Reading the configuration
//! file, tokenizing the command line and spawning processes are left to
//! the surrounding program.

pub mod config;
pub mod dispatch;
pub mod error;
pub mod resolve;
pub mod template;
pub mod text;

pub use config::commit_msg;
pub use config::Arguments;
pub use config::CommitMessageArguments;
pub use config::CustomTaskOptions;
pub use config::GlitterRc;
pub use config::TriStateFlag;
pub use error::GlitterError;
