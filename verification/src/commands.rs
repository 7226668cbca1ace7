//! What each command of the tool decides: its arguments for git, the
//! context of its hooks, and what it tells the user.

pub mod clone;
pub mod create;
pub mod init;
pub mod list;
pub mod remove;
pub mod switch;
