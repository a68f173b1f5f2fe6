//! The vault's commands, as decisions on values: the caller prompts,
//! reads and writes files, and prints.

pub mod add;
pub mod delete;
pub mod get;
pub mod init;
pub mod list;
pub mod lock;
