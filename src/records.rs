//! What the repository handle reports, as plain values.
use vstd::prelude::*;

verus! {

/// A moment as a repository records it: seconds since the Unix epoch and the
/// offset in minutes of the zone it was recorded in.
#[derive(Clone, Copy, Debug, PartialEq, Eq, Structural)]
pub struct GitTime {
    pub seconds: i64,
    pub offset_minutes: i32,
}

/// A name, an email and a moment.
#[derive(Debug)]
pub struct Signature {
    pub name: String,
    pub email: String,
    pub when: GitTime,
}

/// One commit as history traversal yields it.
#[derive(Debug)]
pub struct CommitRecord {
    pub id: String,
    pub tree_id: String,
    pub author: Signature,
    pub committer: Signature,
    pub message: String,
    /// First line (paragraph) of the message.
    pub summary: String,
    /// The message after its summary, where the repository gives one.
    pub body: Option<String>,
    /// Parent ids in the order the repository records them.
    pub parent_ids: Vec<String>,
}

/// Line statistics of one diff between two trees.
#[derive(Clone, Copy, Debug, PartialEq, Eq, Structural)]
pub struct DiffStats {
    pub files_changed: u32,
    pub insertions: u32,
    pub deletions: u32,
}

/// How a file changed between two trees.
#[derive(Clone, Copy, Debug, PartialEq, Eq, Structural)]
pub enum DeltaKind {
    Added,
    Deleted,
    Modified,
    Renamed,
    Copied,
    Typechange,
    Unmodified,
    Ignored,
    Untracked,
    Conflicted,
    Unreadable,
}

/// One file of a diff.
#[derive(Debug)]
pub struct FileDelta {
    pub old_path: Option<String>,
    pub new_path: Option<String>,
    pub kind: DeltaKind,
    pub insertions: u32,
    pub deletions: u32,
    pub old_is_binary: bool,
    pub new_is_binary: bool,
}

/// What the head reference points at.
#[derive(Debug)]
pub struct HeadInfo {
    /// The object id the head resolves to directly, if any.
    pub target: Option<String>,
    /// The full name of the head reference, if it has one.
    pub name: Option<String>,
    pub detached: bool,
}

/// The upstream of a local branch.
#[derive(Debug)]
pub struct UpstreamRecord {
    pub name: Option<String>,
    /// Commits the local tip is ahead of and behind the upstream tip, where
    /// they could be determined.
    pub ahead_behind: Option<(u32, u32)>,
}

/// One local or remote branch.
#[derive(Debug)]
pub struct BranchRecord {
    pub name: String,
    pub full_name: String,
    /// The commit the branch resolves to, or empty.
    pub target_id: String,
    pub is_remote: bool,
    /// The reference lies under the local branch namespace.
    pub is_branch_ref: bool,
    pub upstream: Option<UpstreamRecord>,
}

/// The kind of object a reference or tag points at.
#[derive(Clone, Copy, Debug, PartialEq, Eq, Structural)]
pub enum ObjectKind {
    Commit,
    Tree,
    Blob,
    Tag,
    Other,
}

/// One tag reference.
#[derive(Debug)]
pub enum TagRecord {
    /// A tag object, dereferenced.
    Annotated {
        full_name: String,
        target_id: String,
        target_kind: ObjectKind,
        tagger: Option<TaggerRecord>,
        message: Option<String>,
    },
    /// A reference straight to an object.
    Lightweight { full_name: String, target_id: String, kind: ObjectKind },
}

/// The tagger of an annotated tag; parts that are not valid text are absent.
#[derive(Debug)]
pub struct TaggerRecord {
    pub name: Option<String>,
    pub email: Option<String>,
    pub when: GitTime,
}

/// One reference of any kind.
#[derive(Debug)]
pub struct RefRecord {
    pub full_name: String,
    pub shorthand: String,
    pub is_symbolic: bool,
    /// The name a symbolic reference points at.
    pub symbolic_target: Option<String>,
    /// The id a direct reference holds.
    pub target: Option<String>,
    /// The id a symbolic reference finally resolves to.
    pub resolved_target: Option<String>,
}

/// One stash entry, in the order the stash list yields them.
#[derive(Debug)]
pub struct StashRecord {
    pub message: String,
    pub commit_id: String,
    pub author: Signature,
}

/// One reflog entry, most recent first.
#[derive(Debug)]
pub struct ReflogEntry {
    pub old_id: String,
    pub new_id: String,
    pub committer: Signature,
    pub message: String,
}

/// Attribution of a run of consecutive lines of a file.
#[derive(Debug)]
pub struct BlameHunk {
    /// First line of the run in the current file, from 1.
    pub final_start_line: u32,
    pub lines_in_hunk: u32,
    pub commit_id: String,
    /// First line of the run in the file it came from, from 1.
    pub orig_start_line: u32,
    pub orig_path: Option<String>,
    pub signature: Signature,
}

/// Line attribution of one file, with its current lines.
#[derive(Debug)]
pub struct BlameFile {
    pub hunks: Vec<BlameHunk>,
    /// The lines of the file's current content; empty for a binary file.
    pub lines: Vec<String>,
}

/// The scope a configuration entry comes from.
#[derive(Clone, Copy, Debug, PartialEq, Eq, Structural)]
pub enum ConfigLevel {
    ProgramData,
    System,
    Xdg,
    Global,
    Local,
    Worktree,
    App,
    Highest,
}

/// One configuration entry.
#[derive(Debug)]
pub struct ConfigEntry {
    pub level: ConfigLevel,
    pub name: Option<String>,
    pub value: Option<String>,
}

/// One configured remote.
#[derive(Debug)]
pub struct RemoteRecord {
    pub name: String,
    pub url: Option<String>,
    pub push_url: Option<String>,
    pub fetch_refspecs: Option<Vec<String>>,
    pub push_refspecs: Option<Vec<String>>,
}

/// One submodule.
#[derive(Debug)]
pub struct SubmoduleRecord {
    pub name: String,
    pub path: String,
    pub url: String,
    pub branch: Option<String>,
    pub head_id: Option<String>,
    pub workdir_id: Option<String>,
}

/// The status flags of one path in the working tree.
#[derive(Clone, Copy, Debug, PartialEq, Eq, Structural)]
pub struct StatusFlags {
    pub index_new: bool,
    pub index_modified: bool,
    pub index_deleted: bool,
    pub index_renamed: bool,
    pub index_typechange: bool,
    pub wt_new: bool,
    pub wt_modified: bool,
    pub wt_deleted: bool,
    pub wt_typechange: bool,
    pub wt_renamed: bool,
    pub ignored: bool,
    pub conflicted: bool,
}

/// One path of the working-tree status.
#[derive(Debug)]
pub struct StatusEntry {
    pub path: String,
    pub flags: StatusFlags,
}

/// The main working tree.
#[derive(Debug)]
pub struct MainWorktree {
    pub path: String,
    pub head_id: Option<String>,
    /// The short name of the head branch, where the head is a branch.
    pub branch: Option<String>,
    pub is_bare: bool,
    pub is_detached: bool,
}

/// The administrative files of one linked working tree; each is absent
/// where the file does not exist or could not be read.
#[derive(Debug)]
pub struct LinkedWorktree {
    pub name: String,
    pub gitdir: Option<String>,
    pub head: Option<String>,
    /// `Some` where the lock file exists; inside, its content if readable.
    pub locked: Option<Option<String>>,
}

/// One file of the hooks directory.
#[derive(Debug)]
pub struct HookFile {
    pub file_name: String,
    pub path: String,
    pub is_executable: bool,
    /// Size in bytes.
    pub size: i64,
}

/// One note: a blob of a notes tree, named by the object it annotates.
#[derive(Debug)]
pub struct NoteRecord {
    pub target_id: String,
    pub note_id: String,
    pub content: String,
}

} // verus!
