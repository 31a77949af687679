//! Text expansion for an interactive list host: snippets that resolve to a
//! string, the entries that name them, and the callbacks a host drives.

pub mod config;
pub mod laws;
pub mod mode;
pub mod snippet;
pub mod text;
