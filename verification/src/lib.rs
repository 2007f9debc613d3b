//! Local cache bookkeeping and workspace credential resolution for a
//! project-management command-line client.

pub mod api;
pub mod assoc;
pub mod cache;
pub mod clock;
pub mod config;
pub mod git;
pub mod output;
pub mod search;
pub mod sync;
pub mod templates;
pub mod text;
pub mod value;
