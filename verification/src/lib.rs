//! Naming rules for branches, commits and pull requests.
pub mod answer;
pub mod commit;
pub mod config;
pub mod issue;
pub mod kind;
pub mod slug;
pub mod store;
pub mod text;
