//! Worktree registry and hook orchestration for a hub of git worktrees
//! that share one bare repository.

pub mod commands;
pub mod git;
pub mod hooks;
pub mod hub;
pub mod lifecycle;
pub mod paths;
pub mod process;
pub mod state;
pub mod text;
