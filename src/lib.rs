pub mod args;
pub mod laws;
pub mod outcome;
pub mod service;
pub mod words;

pub use args::{CloneRepoParam, CreateIssueParam, CreatePRParam, RepoParam};
pub use outcome::{command_result, CommandResult, LaunchReport};
pub use service::{instructions, respond, GitHubService, Operation, Tool, ToolFailure};
