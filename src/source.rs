//! The narrow interface through which extractors read a repository.
use vstd::prelude::*;
use crate::records::{
    BlameFile, BranchRecord, CommitRecord, ConfigEntry, DiffStats, FileDelta, HeadInfo, HookFile,
    LinkedWorktree, MainWorktree, NoteRecord, RefRecord, ReflogEntry, RemoteRecord, StashRecord,
    StatusEntry, SubmoduleRecord, TagRecord,
};

verus! {

/// A handle on one opened repository. Each method reads one kind of
/// repository state; where the whole enumeration fails, the `Err` holds
/// the cause, and objects that cannot be read are left out of the result.
pub trait RepoSource {
    /// The working-directory path, or for a bare repository its storage path.
    fn repo_path(&self) -> String;

    /// History from the head, most recent first in topological order.
    fn commits(&mut self) -> Result<Vec<CommitRecord>, String>;

    /// Statistics of the diff from the parent's tree (or the empty tree) to
    /// the commit's tree.
    fn diff_stats(&mut self, commit_id: &str, parent_id: Option<&str>) -> Result<DiffStats, String>;

    /// The files of the diff from the parent's tree (or the empty tree) to
    /// the commit's tree.
    fn diff_files(&mut self, commit_id: &str, parent_id: Option<&str>) -> Result<Vec<FileDelta>, String>;

    /// The head reference, as far as it can be read.
    fn head(&mut self) -> HeadInfo;

    /// Local and remote branches.
    fn branches(&mut self) -> Result<Vec<BranchRecord>, String>;

    /// Tag references.
    fn tags(&mut self) -> Result<Vec<TagRecord>, String>;

    /// All references.
    fn references(&mut self) -> Result<Vec<RefRecord>, String>;

    /// Stash entries, most recent first.
    fn stashes(&mut self) -> Result<Vec<StashRecord>, String>;

    /// The reflog of one reference, most recent first, where it can be read.
    fn reflog(&mut self, ref_name: &str) -> Option<Vec<ReflogEntry>>;

    /// The paths of all blobs under the head tree.
    fn head_blob_paths(&mut self) -> Result<Vec<String>, String>;

    /// Line attribution of one file, where it can be computed.
    fn blame(&mut self, path: &str) -> Option<BlameFile>;

    /// Merged configuration entries of all scopes.
    fn config_entries(&mut self) -> Vec<ConfigEntry>;

    /// Configured remotes.
    fn remotes(&mut self) -> Vec<RemoteRecord>;

    /// Submodules.
    fn submodules(&mut self) -> Vec<SubmoduleRecord>;

    /// Working-tree status of changed and untracked paths.
    fn statuses(&mut self) -> Vec<StatusEntry>;

    /// The main working tree.
    fn main_worktree(&mut self) -> MainWorktree;

    /// The administrative files of each linked working tree.
    fn linked_worktrees(&mut self) -> Vec<LinkedWorktree>;

    /// The files of the hooks directory; the `Err` holds the cause where a
    /// file's metadata cannot be read.
    fn hook_files(&mut self) -> Result<Vec<HookFile>, String>;

    /// The notes of one notes reference.
    fn notes(&mut self, notes_ref: &str) -> Vec<NoteRecord>;
}

} // verus!
