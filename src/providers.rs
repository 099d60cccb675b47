//! One extractor per table: each turns what the repository handle reports
//! into rows in the column order of its table.
pub mod blame;
pub mod branches;
pub mod commit_parents;
pub mod commits;
pub mod config;
pub mod diff_files;
pub mod diffs;
pub mod hooks;
pub mod notes;
pub mod reflog;
pub mod refs;
pub mod remotes;
pub mod stashes;
pub mod status;
pub mod submodules;
pub mod tags;
pub mod worktrees;
