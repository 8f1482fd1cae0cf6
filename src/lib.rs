//! Change detection for a workspace directory, and the text work around a
//! workspace editor: path classification, the choice between native and
//! polling notification, the filter that turns a raw notification into a
//! batch of relevant paths, the per-event decision of a watch session,
//! text search and replacement, the reading of version-control output, and
//! the checks on command arguments.

pub mod text;
pub mod paths;
pub mod classify;
pub mod strategy;
pub mod filter;
pub mod session;
pub mod search;
pub mod replace;
pub mod git;
pub mod requests;
