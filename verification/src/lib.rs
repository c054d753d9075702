//! The backend core of a desktop application shell: the commands that the
//! embedded web view may invoke, the table that routes an invocation to its
//! handler, and the two handlers themselves.

pub mod error;
pub mod native;
pub mod registry;
pub mod navigation;
pub mod commands;
