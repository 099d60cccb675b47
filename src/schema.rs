//! The static catalog of tables: names, categories, columns and the
//! statements that create them.
use vstd::prelude::*;
use crate::text::text_eq;

verus! {

/// One column of a table.
#[derive(Clone, Copy, Debug)]
pub struct ColumnInfo {
    pub name: &'static str,
    pub sql_type: &'static str,
    pub nullable: bool,
    pub description: &'static str,
}

/// One table of the catalog.
#[derive(Debug)]
pub struct TableInfo {
    pub name: &'static str,
    pub description: &'static str,
    pub category: &'static str,
    pub columns: Vec<ColumnInfo>,
    pub create_sql: &'static str,
}

/// A column as the catalog states it: name, declared type, nullability.
pub type ColumnView = (Seq<char>, Seq<char>, bool);

/// A table as the catalog states it: name, category, columns in order.
pub type TableView = (Seq<char>, Seq<char>, Seq<ColumnView>);

pub open spec fn column_view(c: ColumnInfo) -> ColumnView {
    (c.name@, c.sql_type@, c.nullable)
}

pub open spec fn table_view(t: TableInfo) -> TableView {
    (t.name@, t.category@, t.columns@.map_values(|c: ColumnInfo| column_view(c)))
}

/// The number of tables in the catalog.
pub open spec fn table_count() -> nat {
    17
}

/// The names of the catalog's tables, in catalog order.
pub open spec fn table_names() -> Seq<Seq<char>> {
    seq!["commits"@, "commit_parents"@, "branches"@, "tags"@, "refs"@, "stashes"@, "reflog"@, "diffs"@, "diff_files"@, "blame"@, "config"@, "remotes"@, "submodules"@, "status"@, "worktrees"@, "hooks"@, "notes"@]
}

/// The catalog, in order.
#[verifier::opaque]
pub open spec fn catalog() -> Seq<TableView> {
    seq![spec_commits(), spec_commit_parents(), spec_branches(), spec_tags(), spec_refs(), spec_stashes(), spec_reflog(), spec_diffs(), spec_diff_files(), spec_blame(), spec_config(), spec_remotes(), spec_submodules(), spec_status(), spec_worktrees(), spec_hooks(), spec_notes()]
}

pub open spec fn spec_commits() -> TableView {
    ("commits"@, "CORE"@, seq![
        ("id"@, "TEXT"@, false),
        ("short_id"@, "TEXT"@, false),
        ("tree_id"@, "TEXT"@, false),
        ("author_name"@, "TEXT"@, false),
        ("author_email"@, "TEXT"@, false),
        ("authored_at"@, "DATETIME"@, false),
        ("committer_name"@, "TEXT"@, false),
        ("committer_email"@, "TEXT"@, false),
        ("committed_at"@, "DATETIME"@, false),
        ("message"@, "TEXT"@, false),
        ("summary"@, "TEXT"@, false),
        ("body"@, "TEXT"@, true),
        ("parent_count"@, "INTEGER"@, false),
        ("is_merge"@, "BOOLEAN"@, false),
        ("repo"@, "TEXT"@, false),
    ])
}

pub open spec fn spec_commit_parents() -> TableView {
    ("commit_parents"@, "CORE"@, seq![
        ("commit_id"@, "TEXT"@, false),
        ("parent_id"@, "TEXT"@, false),
        ("parent_index"@, "INTEGER"@, false),
        ("repo"@, "TEXT"@, false),
    ])
}

pub open spec fn spec_branches() -> TableView {
    ("branches"@, "REFERENCES"@, seq![
        ("name"@, "TEXT"@, false),
        ("full_name"@, "TEXT"@, false),
        ("target_id"@, "TEXT"@, false),
        ("is_remote"@, "BOOLEAN"@, false),
        ("is_head"@, "BOOLEAN"@, false),
        ("remote_name"@, "TEXT"@, true),
        ("upstream"@, "TEXT"@, true),
        ("ahead"@, "INTEGER"@, true),
        ("behind"@, "INTEGER"@, true),
        ("repo"@, "TEXT"@, false),
    ])
}

pub open spec fn spec_tags() -> TableView {
    ("tags"@, "REFERENCES"@, seq![
        ("name"@, "TEXT"@, false),
        ("full_name"@, "TEXT"@, false),
        ("target_id"@, "TEXT"@, false),
        ("target_type"@, "TEXT"@, false),
        ("is_annotated"@, "BOOLEAN"@, false),
        ("tagger_name"@, "TEXT"@, true),
        ("tagger_email"@, "TEXT"@, true),
        ("tagged_at"@, "DATETIME"@, true),
        ("message"@, "TEXT"@, true),
        ("repo"@, "TEXT"@, false),
    ])
}

pub open spec fn spec_refs() -> TableView {
    ("refs"@, "REFERENCES"@, seq![
        ("name"@, "TEXT"@, false),
        ("full_name"@, "TEXT"@, false),
        ("target_id"@, "TEXT"@, false),
        ("kind"@, "TEXT"@, false),
        ("is_symbolic"@, "BOOLEAN"@, false),
        ("symbolic_target"@, "TEXT"@, true),
        ("repo"@, "TEXT"@, false),
    ])
}

pub open spec fn spec_stashes() -> TableView {
    ("stashes"@, "REFERENCES"@, seq![
        ("stash_index"@, "INTEGER"@, false),
        ("commit_id"@, "TEXT"@, false),
        ("message"@, "TEXT"@, false),
        ("author_name"@, "TEXT"@, false),
        ("author_email"@, "TEXT"@, false),
        ("created_at"@, "DATETIME"@, false),
        ("branch"@, "TEXT"@, false),
        ("repo"@, "TEXT"@, false),
    ])
}

pub open spec fn spec_reflog() -> TableView {
    ("reflog"@, "REFERENCES"@, seq![
        ("ref_name"@, "TEXT"@, false),
        ("entry_index"@, "INTEGER"@, false),
        ("old_id"@, "TEXT"@, false),
        ("new_id"@, "TEXT"@, false),
        ("committer_name"@, "TEXT"@, false),
        ("committer_email"@, "TEXT"@, false),
        ("committed_at"@, "DATETIME"@, false),
        ("message"@, "TEXT"@, false),
        ("action"@, "TEXT"@, false),
        ("repo"@, "TEXT"@, false),
    ])
}

pub open spec fn spec_diffs() -> TableView {
    ("diffs"@, "CHANGES"@, seq![
        ("commit_id"@, "TEXT"@, false),
        ("parent_id"@, "TEXT"@, true),
        ("files_changed"@, "INTEGER"@, false),
        ("insertions"@, "INTEGER"@, false),
        ("deletions"@, "INTEGER"@, false),
        ("repo"@, "TEXT"@, false),
    ])
}

pub open spec fn spec_diff_files() -> TableView {
    ("diff_files"@, "CHANGES"@, seq![
        ("commit_id"@, "TEXT"@, false),
        ("parent_id"@, "TEXT"@, true),
        ("old_path"@, "TEXT"@, true),
        ("new_path"@, "TEXT"@, true),
        ("status"@, "TEXT"@, false),
        ("insertions"@, "INTEGER"@, false),
        ("deletions"@, "INTEGER"@, false),
        ("is_binary"@, "BOOLEAN"@, false),
        ("similarity"@, "INTEGER"@, true),
        ("repo"@, "TEXT"@, false),
    ])
}

pub open spec fn spec_blame() -> TableView {
    ("blame"@, "CHANGES"@, seq![
        ("path"@, "TEXT"@, false),
        ("line_number"@, "INTEGER"@, false),
        ("commit_id"@, "TEXT"@, false),
        ("original_line"@, "INTEGER"@, false),
        ("original_path"@, "TEXT"@, false),
        ("author_name"@, "TEXT"@, false),
        ("author_email"@, "TEXT"@, false),
        ("authored_at"@, "DATETIME"@, false),
        ("line_content"@, "TEXT"@, false),
        ("repo"@, "TEXT"@, false),
    ])
}

pub open spec fn spec_config() -> TableView {
    ("config"@, "CONFIGURATION"@, seq![
        ("level"@, "TEXT"@, false),
        ("section"@, "TEXT"@, false),
        ("subsection"@, "TEXT"@, true),
        ("key"@, "TEXT"@, false),
        ("name"@, "TEXT"@, false),
        ("value"@, "TEXT"@, false),
        ("repo"@, "TEXT"@, false),
    ])
}

pub open spec fn spec_remotes() -> TableView {
    ("remotes"@, "CONFIGURATION"@, seq![
        ("name"@, "TEXT"@, false),
        ("url"@, "TEXT"@, true),
        ("push_url"@, "TEXT"@, true),
        ("fetch_refspec"@, "TEXT"@, true),
        ("push_refspec"@, "TEXT"@, true),
        ("repo"@, "TEXT"@, false),
    ])
}

pub open spec fn spec_submodules() -> TableView {
    ("submodules"@, "CONFIGURATION"@, seq![
        ("name"@, "TEXT"@, false),
        ("path"@, "TEXT"@, false),
        ("url"@, "TEXT"@, false),
        ("branch"@, "TEXT"@, true),
        ("head_id"@, "TEXT"@, true),
        ("status"@, "TEXT"@, false),
        ("repo"@, "TEXT"@, false),
    ])
}

pub open spec fn spec_status() -> TableView {
    ("status"@, "WORKING DIRECTORY"@, seq![
        ("path"@, "TEXT"@, false),
        ("status_code"@, "TEXT"@, false),
        ("head_status"@, "TEXT"@, false),
        ("index_status"@, "TEXT"@, false),
        ("is_staged"@, "BOOLEAN"@, false),
        ("is_modified"@, "BOOLEAN"@, false),
        ("is_new"@, "BOOLEAN"@, false),
        ("is_deleted"@, "BOOLEAN"@, false),
        ("is_renamed"@, "BOOLEAN"@, false),
        ("is_copied"@, "BOOLEAN"@, false),
        ("is_ignored"@, "BOOLEAN"@, false),
        ("is_conflicted"@, "BOOLEAN"@, false),
        ("repo"@, "TEXT"@, false),
    ])
}

pub open spec fn spec_worktrees() -> TableView {
    ("worktrees"@, "WORKING DIRECTORY"@, seq![
        ("name"@, "TEXT"@, false),
        ("path"@, "TEXT"@, true),
        ("head_id"@, "TEXT"@, true),
        ("branch"@, "TEXT"@, true),
        ("is_bare"@, "BOOLEAN"@, false),
        ("is_detached"@, "BOOLEAN"@, false),
        ("is_locked"@, "BOOLEAN"@, false),
        ("lock_reason"@, "TEXT"@, true),
        ("is_prunable"@, "BOOLEAN"@, false),
        ("repo"@, "TEXT"@, false),
    ])
}

pub open spec fn spec_hooks() -> TableView {
    ("hooks"@, "OPERATIONAL"@, seq![
        ("name"@, "TEXT"@, false),
        ("path"@, "TEXT"@, false),
        ("is_executable"@, "BOOLEAN"@, false),
        ("is_sample"@, "BOOLEAN"@, false),
        ("size"@, "INTEGER"@, false),
        ("repo"@, "TEXT"@, false),
    ])
}

pub open spec fn spec_notes() -> TableView {
    ("notes"@, "OPERATIONAL"@, seq![
        ("notes_ref"@, "TEXT"@, false),
        ("target_id"@, "TEXT"@, false),
        ("note_id"@, "TEXT"@, false),
        ("content"@, "TEXT"@, false),
        ("repo"@, "TEXT"@, false),
    ])
}

/// The position of a table name in the catalog.
pub open spec fn table_position(name: Seq<char>) -> int {
    choose|i: int| 0 <= i < table_count() && table_names()[i] == name
}

/// No two tables of the catalog share a name.
pub proof fn lemma_table_names_distinct()
    ensures
        table_names().len() == table_count(),
        forall|i: int, j: int|
            0 <= i < table_count() && 0 <= j < table_count() && i != j ==> table_names()[i] != table_names()[j],
{
    reveal_strlit("commits");
    reveal_strlit("commit_parents");
    reveal_strlit("branches");
    reveal_strlit("tags");
    reveal_strlit("refs");
    reveal_strlit("stashes");
    reveal_strlit("reflog");
    reveal_strlit("diffs");
    reveal_strlit("diff_files");
    reveal_strlit("blame");
    reveal_strlit("config");
    reveal_strlit("remotes");
    reveal_strlit("submodules");
    reveal_strlit("status");
    reveal_strlit("worktrees");
    reveal_strlit("hooks");
    reveal_strlit("notes");
    assert(table_names()[0].len() == 7 && table_names()[0][0] == 'c');
    assert(table_names()[1].len() == 14 && table_names()[1][0] == 'c');
    assert(table_names()[2].len() == 8 && table_names()[2][0] == 'b');
    assert(table_names()[3].len() == 4 && table_names()[3][0] == 't');
    assert(table_names()[4].len() == 4 && table_names()[4][0] == 'r');
    assert(table_names()[5].len() == 7 && table_names()[5][0] == 's');
    assert(table_names()[6].len() == 6 && table_names()[6][0] == 'r');
    assert(table_names()[7].len() == 5 && table_names()[7][0] == 'd');
    assert(table_names()[8].len() == 10 && table_names()[8][0] == 'd');
    assert(table_names()[9].len() == 5 && table_names()[9][0] == 'b');
    assert(table_names()[10].len() == 6 && table_names()[10][0] == 'c');
    assert(table_names()[11].len() == 7 && table_names()[11][0] == 'r');
    assert(table_names()[12].len() == 10 && table_names()[12][0] == 's');
    assert(table_names()[13].len() == 6 && table_names()[13][0] == 's');
    assert(table_names()[14].len() == 9 && table_names()[14][0] == 'w');
    assert(table_names()[15].len() == 5 && table_names()[15][0] == 'h');
    assert(table_names()[16].len() == 5 && table_names()[16][0] == 'n');
    assert forall|i: int, j: int|
        0 <= i < table_count() && 0 <= j < table_count() && i != j implies #[trigger] table_names()[i]
            != #[trigger] table_names()[j] by {
        assert(table_names()[i].len() != table_names()[j].len() || table_names()[i][0] != table_names()[j][0]);
    }
}

/// The position of the table at position `i` is `i`.
pub proof fn lemma_table_position(i: int)
    requires
        0 <= i < table_count(),
    ensures
        table_position(table_names()[i]) == i,
{
    lemma_table_names_distinct();
}

/// A column of the catalog.
fn col(name: &'static str, sql_type: &'static str, nullable: bool, description: &'static str) -> (r: ColumnInfo)
    ensures
        r.name == name,
        r.sql_type == sql_type,
        r.nullable == nullable,
        r.description == description,
{
    ColumnInfo { name, sql_type, nullable, description }
}

fn table_commits() -> (r: TableInfo)
    ensures
        table_view(r) == spec_commits(),
{
    let columns = vec![
        col("id", "TEXT", false, "Full SHA-1 hash (40 characters)"),
        col("short_id", "TEXT", false, "Abbreviated hash (7 characters)"),
        col("tree_id", "TEXT", false, "Tree object SHA"),
        col("author_name", "TEXT", false, "Author's name"),
        col("author_email", "TEXT", false, "Author's email"),
        col("authored_at", "DATETIME", false, "When originally written"),
        col("committer_name", "TEXT", false, "Committer's name"),
        col("committer_email", "TEXT", false, "Committer's email"),
        col("committed_at", "DATETIME", false, "When committed"),
        col("message", "TEXT", false, "Full commit message"),
        col("summary", "TEXT", false, "First line of message"),
        col("body", "TEXT", true, "Message body (lines 2+)"),
        col("parent_count", "INTEGER", false, "Number of parents"),
        col("is_merge", "BOOLEAN", false, "True if merge commit"),
        col("repo", "TEXT", false, "Repository path"),
    ];
    let r = TableInfo {
        name: "commits",
        description: "Commit history and metadata",
        category: "CORE",
        columns,
        create_sql: "CREATE TABLE IF NOT EXISTS commits (id TEXT NOT NULL, short_id TEXT NOT NULL, tree_id TEXT NOT NULL, author_name TEXT NOT NULL, author_email TEXT NOT NULL, authored_at TEXT NOT NULL, committer_name TEXT NOT NULL, committer_email TEXT NOT NULL, committed_at TEXT NOT NULL, message TEXT NOT NULL, summary TEXT NOT NULL, body TEXT, parent_count INTEGER NOT NULL, is_merge INTEGER NOT NULL, repo TEXT NOT NULL, PRIMARY KEY (id, repo))",
    };
    assert(table_view(r) =~~= spec_commits());
    r
}

fn table_commit_parents() -> (r: TableInfo)
    ensures
        table_view(r) == spec_commit_parents(),
{
    let columns = vec![
        col("commit_id", "TEXT", false, "Child commit SHA"),
        col("parent_id", "TEXT", false, "Parent commit SHA"),
        col("parent_index", "INTEGER", false, "Parent order (0=first)"),
        col("repo", "TEXT", false, "Repository path"),
    ];
    let r = TableInfo {
        name: "commit_parents",
        description: "Parent-child relationships",
        category: "CORE",
        columns,
        create_sql: "CREATE TABLE IF NOT EXISTS commit_parents (commit_id TEXT NOT NULL, parent_id TEXT NOT NULL, parent_index INTEGER NOT NULL, repo TEXT NOT NULL, PRIMARY KEY (commit_id, parent_id, repo))",
    };
    assert(table_view(r) =~~= spec_commit_parents());
    r
}

fn table_branches() -> (r: TableInfo)
    ensures
        table_view(r) == spec_branches(),
{
    let columns = vec![
        col("name", "TEXT", false, "Branch name"),
        col("full_name", "TEXT", false, "Full refname"),
        col("target_id", "TEXT", false, "Commit SHA"),
        col("is_remote", "BOOLEAN", false, "Remote tracking branch"),
        col("is_head", "BOOLEAN", false, "Currently checked out"),
        col("remote_name", "TEXT", true, "Remote name"),
        col("upstream", "TEXT", true, "Upstream branch"),
        col("ahead", "INTEGER", true, "Commits ahead"),
        col("behind", "INTEGER", true, "Commits behind"),
        col("repo", "TEXT", false, "Repository path"),
    ];
    let r = TableInfo {
        name: "branches",
        description: "Local and remote branches",
        category: "REFERENCES",
        columns,
        create_sql: "CREATE TABLE IF NOT EXISTS branches (name TEXT NOT NULL, full_name TEXT NOT NULL, target_id TEXT NOT NULL, is_remote INTEGER NOT NULL, is_head INTEGER NOT NULL, remote_name TEXT, upstream TEXT, ahead INTEGER, behind INTEGER, repo TEXT NOT NULL, PRIMARY KEY (full_name, repo))",
    };
    assert(table_view(r) =~~= spec_branches());
    r
}

fn table_tags() -> (r: TableInfo)
    ensures
        table_view(r) == spec_tags(),
{
    let columns = vec![
        col("name", "TEXT", false, "Tag name"),
        col("full_name", "TEXT", false, "Full refname"),
        col("target_id", "TEXT", false, "Tagged object SHA"),
        col("target_type", "TEXT", false, "commit/tree/blob/tag"),
        col("is_annotated", "BOOLEAN", false, "Annotated tag"),
        col("tagger_name", "TEXT", true, "Tagger name"),
        col("tagger_email", "TEXT", true, "Tagger email"),
        col("tagged_at", "DATETIME", true, "Tag creation time"),
        col("message", "TEXT", true, "Tag message"),
        col("repo", "TEXT", false, "Repository path"),
    ];
    let r = TableInfo {
        name: "tags",
        description: "Annotated and lightweight tags",
        category: "REFERENCES",
        columns,
        create_sql: "CREATE TABLE IF NOT EXISTS tags (name TEXT NOT NULL, full_name TEXT NOT NULL, target_id TEXT NOT NULL, target_type TEXT NOT NULL, is_annotated INTEGER NOT NULL, tagger_name TEXT, tagger_email TEXT, tagged_at TEXT, message TEXT, repo TEXT NOT NULL, PRIMARY KEY (full_name, repo))",
    };
    assert(table_view(r) =~~= spec_tags());
    r
}

fn table_refs() -> (r: TableInfo)
    ensures
        table_view(r) == spec_refs(),
{
    let columns = vec![
        col("name", "TEXT", false, "Short name"),
        col("full_name", "TEXT", false, "Full reference name"),
        col("target_id", "TEXT", false, "Target SHA"),
        col("kind", "TEXT", false, "branch/remote/tag/note/stash/other"),
        col("is_symbolic", "BOOLEAN", false, "Symbolic ref"),
        col("symbolic_target", "TEXT", true, "Target reference"),
        col("repo", "TEXT", false, "Repository path"),
    ];
    let r = TableInfo {
        name: "refs",
        description: "All references (unified view)",
        category: "REFERENCES",
        columns,
        create_sql: "CREATE TABLE IF NOT EXISTS refs (name TEXT NOT NULL, full_name TEXT NOT NULL, target_id TEXT NOT NULL, kind TEXT NOT NULL, is_symbolic INTEGER NOT NULL, symbolic_target TEXT, repo TEXT NOT NULL, PRIMARY KEY (full_name, repo))",
    };
    assert(table_view(r) =~~= spec_refs());
    r
}

fn table_stashes() -> (r: TableInfo)
    ensures
        table_view(r) == spec_stashes(),
{
    let columns = vec![
        col("stash_index", "INTEGER", false, "Stash index (0=most recent)"),
        col("commit_id", "TEXT", false, "Stash commit SHA"),
        col("message", "TEXT", false, "Stash message"),
        col("author_name", "TEXT", false, "Who stashed"),
        col("author_email", "TEXT", false, "Email"),
        col("created_at", "DATETIME", false, "When stashed"),
        col("branch", "TEXT", false, "Branch when stashed"),
        col("repo", "TEXT", false, "Repository path"),
    ];
    let r = TableInfo {
        name: "stashes",
        description: "Stashed changes",
        category: "REFERENCES",
        columns,
        create_sql: "CREATE TABLE IF NOT EXISTS stashes (stash_index INTEGER NOT NULL, commit_id TEXT NOT NULL, message TEXT NOT NULL, author_name TEXT NOT NULL, author_email TEXT NOT NULL, created_at TEXT NOT NULL, branch TEXT NOT NULL, repo TEXT NOT NULL, PRIMARY KEY (stash_index, repo))",
    };
    assert(table_view(r) =~~= spec_stashes());
    r
}

fn table_reflog() -> (r: TableInfo)
    ensures
        table_view(r) == spec_reflog(),
{
    let columns = vec![
        col("ref_name", "TEXT", false, "Reference name"),
        col("entry_index", "INTEGER", false, "Entry index (0=most recent)"),
        col("old_id", "TEXT", false, "Previous SHA"),
        col("new_id", "TEXT", false, "New SHA"),
        col("committer_name", "TEXT", false, "Who made change"),
        col("committer_email", "TEXT", false, "Email"),
        col("committed_at", "DATETIME", false, "When changed"),
        col("message", "TEXT", false, "Reflog message"),
        col("action", "TEXT", false, "Action type"),
        col("repo", "TEXT", false, "Repository path"),
    ];
    let r = TableInfo {
        name: "reflog",
        description: "Reference history",
        category: "REFERENCES",
        columns,
        create_sql: "CREATE TABLE IF NOT EXISTS reflog (ref_name TEXT NOT NULL, entry_index INTEGER NOT NULL, old_id TEXT NOT NULL, new_id TEXT NOT NULL, committer_name TEXT NOT NULL, committer_email TEXT NOT NULL, committed_at TEXT NOT NULL, message TEXT NOT NULL, action TEXT NOT NULL, repo TEXT NOT NULL, PRIMARY KEY (ref_name, entry_index, repo))",
    };
    assert(table_view(r) =~~= spec_reflog());
    r
}

fn table_diffs() -> (r: TableInfo)
    ensures
        table_view(r) == spec_diffs(),
{
    let columns = vec![
        col("commit_id", "TEXT", false, "Commit SHA"),
        col("parent_id", "TEXT", true, "Parent SHA"),
        col("files_changed", "INTEGER", false, "Files changed"),
        col("insertions", "INTEGER", false, "Lines added"),
        col("deletions", "INTEGER", false, "Lines removed"),
        col("repo", "TEXT", false, "Repository path"),
    ];
    let r = TableInfo {
        name: "diffs",
        description: "Per-commit diff summary",
        category: "CHANGES",
        columns,
        create_sql: "CREATE TABLE IF NOT EXISTS diffs (commit_id TEXT NOT NULL, parent_id TEXT, files_changed INTEGER NOT NULL, insertions INTEGER NOT NULL, deletions INTEGER NOT NULL, repo TEXT NOT NULL)",
    };
    assert(table_view(r) =~~= spec_diffs());
    r
}

fn table_diff_files() -> (r: TableInfo)
    ensures
        table_view(r) == spec_diff_files(),
{
    let columns = vec![
        col("commit_id", "TEXT", false, "Commit SHA"),
        col("parent_id", "TEXT", true, "Parent SHA"),
        col("old_path", "TEXT", true, "Path before"),
        col("new_path", "TEXT", true, "Path after"),
        col("status", "TEXT", false, "A/D/M/R/C/T"),
        col("insertions", "INTEGER", false, "Lines added"),
        col("deletions", "INTEGER", false, "Lines removed"),
        col("is_binary", "BOOLEAN", false, "Binary file"),
        col("similarity", "INTEGER", true, "Rename similarity %"),
        col("repo", "TEXT", false, "Repository path"),
    ];
    let r = TableInfo {
        name: "diff_files",
        description: "Per-file changes",
        category: "CHANGES",
        columns,
        create_sql: "CREATE TABLE IF NOT EXISTS diff_files (commit_id TEXT NOT NULL, parent_id TEXT, old_path TEXT, new_path TEXT, status TEXT NOT NULL, insertions INTEGER NOT NULL, deletions INTEGER NOT NULL, is_binary INTEGER NOT NULL, similarity INTEGER, repo TEXT NOT NULL)",
    };
    assert(table_view(r) =~~= spec_diff_files());
    r
}

fn table_blame() -> (r: TableInfo)
    ensures
        table_view(r) == spec_blame(),
{
    let columns = vec![
        col("path", "TEXT", false, "File path"),
        col("line_number", "INTEGER", false, "Line number"),
        col("commit_id", "TEXT", false, "Commit that introduced line"),
        col("original_line", "INTEGER", false, "Original line number"),
        col("original_path", "TEXT", false, "Original file path"),
        col("author_name", "TEXT", false, "Author"),
        col("author_email", "TEXT", false, "Email"),
        col("authored_at", "DATETIME", false, "When written"),
        col("line_content", "TEXT", false, "Line text"),
        col("repo", "TEXT", false, "Repository path"),
    ];
    let r = TableInfo {
        name: "blame",
        description: "Per-line attribution",
        category: "CHANGES",
        columns,
        create_sql: "CREATE TABLE IF NOT EXISTS blame (path TEXT NOT NULL, line_number INTEGER NOT NULL, commit_id TEXT NOT NULL, original_line INTEGER NOT NULL, original_path TEXT NOT NULL, author_name TEXT NOT NULL, author_email TEXT NOT NULL, authored_at TEXT NOT NULL, line_content TEXT NOT NULL, repo TEXT NOT NULL, PRIMARY KEY (path, line_number, repo))",
    };
    assert(table_view(r) =~~= spec_blame());
    r
}

fn table_config() -> (r: TableInfo)
    ensures
        table_view(r) == spec_config(),
{
    let columns = vec![
        col("level", "TEXT", false, "system/global/local"),
        col("section", "TEXT", false, "Config section"),
        col("subsection", "TEXT", true, "Subsection"),
        col("key", "TEXT", false, "Config key"),
        col("name", "TEXT", false, "Full name"),
        col("value", "TEXT", false, "Config value"),
        col("repo", "TEXT", false, "Repository path"),
    ];
    let r = TableInfo {
        name: "config",
        description: "Git configuration",
        category: "CONFIGURATION",
        columns,
        create_sql: "CREATE TABLE IF NOT EXISTS config (level TEXT NOT NULL, section TEXT NOT NULL, subsection TEXT, key TEXT NOT NULL, name TEXT NOT NULL, value TEXT NOT NULL, repo TEXT NOT NULL)",
    };
    assert(table_view(r) =~~= spec_config());
    r
}

fn table_remotes() -> (r: TableInfo)
    ensures
        table_view(r) == spec_remotes(),
{
    let columns = vec![
        col("name", "TEXT", false, "Remote name"),
        col("url", "TEXT", true, "Fetch URL"),
        col("push_url", "TEXT", true, "Push URL"),
        col("fetch_refspec", "TEXT", true, "Fetch refspec"),
        col("push_refspec", "TEXT", true, "Push refspec"),
        col("repo", "TEXT", false, "Repository path"),
    ];
    let r = TableInfo {
        name: "remotes",
        description: "Remote repositories",
        category: "CONFIGURATION",
        columns,
        create_sql: "CREATE TABLE IF NOT EXISTS remotes (name TEXT NOT NULL, url TEXT, push_url TEXT, fetch_refspec TEXT, push_refspec TEXT, repo TEXT NOT NULL, PRIMARY KEY (name, repo))",
    };
    assert(table_view(r) =~~= spec_remotes());
    r
}

fn table_submodules() -> (r: TableInfo)
    ensures
        table_view(r) == spec_submodules(),
{
    let columns = vec![
        col("name", "TEXT", false, "Submodule name"),
        col("path", "TEXT", false, "Filesystem path"),
        col("url", "TEXT", false, "Repository URL"),
        col("branch", "TEXT", true, "Tracked branch"),
        col("head_id", "TEXT", true, "Current HEAD SHA"),
        col("status", "TEXT", false, "current/modified/uninitialized"),
        col("repo", "TEXT", false, "Repository path"),
    ];
    let r = TableInfo {
        name: "submodules",
        description: "Nested repositories",
        category: "CONFIGURATION",
        columns,
        create_sql: "CREATE TABLE IF NOT EXISTS submodules (name TEXT NOT NULL, path TEXT NOT NULL, url TEXT NOT NULL, branch TEXT, head_id TEXT, status TEXT NOT NULL, repo TEXT NOT NULL, PRIMARY KEY (name, repo))",
    };
    assert(table_view(r) =~~= spec_submodules());
    r
}

fn table_status() -> (r: TableInfo)
    ensures
        table_view(r) == spec_status(),
{
    let columns = vec![
        col("path", "TEXT", false, "File path"),
        col("status_code", "TEXT", false, "Two-character status"),
        col("head_status", "TEXT", false, "Index vs HEAD"),
        col("index_status", "TEXT", false, "Worktree vs index"),
        col("is_staged", "BOOLEAN", false, "In staging area"),
        col("is_modified", "BOOLEAN", false, "Modified"),
        col("is_new", "BOOLEAN", false, "Untracked"),
        col("is_deleted", "BOOLEAN", false, "Deleted"),
        col("is_renamed", "BOOLEAN", false, "Renamed"),
        col("is_copied", "BOOLEAN", false, "Copied"),
        col("is_ignored", "BOOLEAN", false, "Ignored"),
        col("is_conflicted", "BOOLEAN", false, "Conflicted"),
        col("repo", "TEXT", false, "Repository path"),
    ];
    let r = TableInfo {
        name: "status",
        description: "Working directory status",
        category: "WORKING DIRECTORY",
        columns,
        create_sql: "CREATE TABLE IF NOT EXISTS status (path TEXT NOT NULL, status_code TEXT NOT NULL, head_status TEXT NOT NULL, index_status TEXT NOT NULL, is_staged INTEGER NOT NULL, is_modified INTEGER NOT NULL, is_new INTEGER NOT NULL, is_deleted INTEGER NOT NULL, is_renamed INTEGER NOT NULL, is_copied INTEGER NOT NULL, is_ignored INTEGER NOT NULL, is_conflicted INTEGER NOT NULL, repo TEXT NOT NULL, PRIMARY KEY (path, repo))",
    };
    assert(table_view(r) =~~= spec_status());
    r
}

fn table_worktrees() -> (r: TableInfo)
    ensures
        table_view(r) == spec_worktrees(),
{
    let columns = vec![
        col("name", "TEXT", false, "Worktree name"),
        col("path", "TEXT", true, "Filesystem path"),
        col("head_id", "TEXT", true, "HEAD commit SHA"),
        col("branch", "TEXT", true, "Checked out branch"),
        col("is_bare", "BOOLEAN", false, "Bare worktree"),
        col("is_detached", "BOOLEAN", false, "Detached HEAD"),
        col("is_locked", "BOOLEAN", false, "Locked state"),
        col("lock_reason", "TEXT", true, "Lock reason"),
        col("is_prunable", "BOOLEAN", false, "Can be pruned"),
        col("repo", "TEXT", false, "Repository path"),
    ];
    let r = TableInfo {
        name: "worktrees",
        description: "Linked working trees",
        category: "WORKING DIRECTORY",
        columns,
        create_sql: "CREATE TABLE IF NOT EXISTS worktrees (name TEXT NOT NULL, path TEXT, head_id TEXT, branch TEXT, is_bare INTEGER NOT NULL, is_detached INTEGER NOT NULL, is_locked INTEGER NOT NULL, lock_reason TEXT, is_prunable INTEGER NOT NULL, repo TEXT NOT NULL, PRIMARY KEY (name, repo))",
    };
    assert(table_view(r) =~~= spec_worktrees());
    r
}

fn table_hooks() -> (r: TableInfo)
    ensures
        table_view(r) == spec_hooks(),
{
    let columns = vec![
        col("name", "TEXT", false, "Hook name"),
        col("path", "TEXT", false, "Full path"),
        col("is_executable", "BOOLEAN", false, "Has execute permission"),
        col("is_sample", "BOOLEAN", false, "Is a .sample file"),
        col("size", "INTEGER", false, "File size in bytes"),
        col("repo", "TEXT", false, "Repository path"),
    ];
    let r = TableInfo {
        name: "hooks",
        description: "Installed git hooks",
        category: "OPERATIONAL",
        columns,
        create_sql: "CREATE TABLE IF NOT EXISTS hooks (name TEXT NOT NULL, path TEXT NOT NULL, is_executable INTEGER NOT NULL, is_sample INTEGER NOT NULL, size INTEGER NOT NULL, repo TEXT NOT NULL)",
    };
    assert(table_view(r) =~~= spec_hooks());
    r
}

fn table_notes() -> (r: TableInfo)
    ensures
        table_view(r) == spec_notes(),
{
    let columns = vec![
        col("notes_ref", "TEXT", false, "Notes reference"),
        col("target_id", "TEXT", false, "Annotated object SHA"),
        col("note_id", "TEXT", false, "Note blob SHA"),
        col("content", "TEXT", false, "Note text"),
        col("repo", "TEXT", false, "Repository path"),
    ];
    let r = TableInfo {
        name: "notes",
        description: "Git notes",
        category: "OPERATIONAL",
        columns,
        create_sql: "CREATE TABLE IF NOT EXISTS notes (notes_ref TEXT NOT NULL, target_id TEXT NOT NULL, note_id TEXT NOT NULL, content TEXT NOT NULL, repo TEXT NOT NULL, PRIMARY KEY (notes_ref, target_id, repo))",
    };
    assert(table_view(r) =~~= spec_notes());
    r
}

/// The whole catalog, in order.
pub fn tables() -> (r: Vec<TableInfo>)
    ensures
        r@.len() == table_count(),
        catalog().len() == table_count(),
        forall|i: int| 0 <= i < r@.len() ==> table_view(#[trigger] r@[i]) == catalog()[i],
{
    let r = vec![
        table_commits(),
        table_commit_parents(),
        table_branches(),
        table_tags(),
        table_refs(),
        table_stashes(),
        table_reflog(),
        table_diffs(),
        table_diff_files(),
        table_blame(),
        table_config(),
        table_remotes(),
        table_submodules(),
        table_status(),
        table_worktrees(),
        table_hooks(),
        table_notes(),
    ];
    reveal(catalog);
    assert(r@.map_values(|t: TableInfo| table_view(t)) =~= catalog());
    assert forall|i: int| 0 <= i < r@.len() implies table_view(#[trigger] r@[i]) == catalog()[i] by {
        assert(r@.map_values(|t: TableInfo| table_view(t))[i] == table_view(r@[i]));
    }
    r
}

/// The tables of `ts` in category `cat`, in order.
pub open spec fn in_category(ts: Seq<TableView>, cat: Seq<char>) -> Seq<TableView> {
    ts.filter(|t: TableView| t.1 == cat)
}

proof fn lemma_in_category_push(ts: Seq<TableView>, t: TableView, cat: Seq<char>)
    ensures
        in_category(ts.push(t), cat) == if t.1 == cat {
            in_category(ts, cat).push(t)
        } else {
            in_category(ts, cat)
        },
{
    reveal(Seq::filter);
    assert(ts.push(t).drop_last() =~= ts);
}

proof fn lemma_in_category_none(ts: Seq<TableView>, cat: Seq<char>)
    requires
        forall|k: int| 0 <= k < ts.len() ==> (#[trigger] ts[k]).1 != cat,
    ensures
        in_category(ts, cat) == Seq::<TableView>::empty(),
    decreases ts.len(),
{
    reveal(Seq::filter);
    if ts.len() > 0 {
        lemma_in_category_none(ts.drop_last(), cat);
    }
}

/// Looks a table up by name.
pub fn get_table_info(name: &str) -> (r: Option<TableInfo>)
    ensures
        r is None <==> !table_names().contains(name@),
        match r {
            Some(t) => t.name@ == name@ && exists|i: int|
                0 <= i < table_count() && catalog()[i] == #[trigger] table_view(t),
            None => true,
        },
{
    let mut all = tables();
    let mut i: usize = 0;
    proof {
        reveal(catalog);
        assert(forall|k: int| 0 <= k < table_count() ==> (#[trigger] catalog()[k]).0 == table_names()[k]);
    }
    while i < all.len()
        invariant
            all@.len() == table_count(),
            forall|k: int| 0 <= k < all@.len() ==> table_view(#[trigger] all@[k]) == catalog()[k],
            forall|k: int| 0 <= k < table_count() ==> (#[trigger] catalog()[k]).0 == table_names()[k],
            i <= all@.len(),
            forall|k: int| 0 <= k < i ==> table_names()[k] != name@,
        decreases all@.len() - i,
    {
        if text_eq(all[i].name, name) {
            assert(table_view(all@[i as int]) == catalog()[i as int]);
            assert(table_names()[i as int] == name@);
            let t = all.remove(i);
            return Some(t);
        }
        i = i + 1;
    }
    None
}

/// Groups of tables as category names with the tables' views.
pub open spec fn groups_view(gs: Seq<(&'static str, Vec<TableInfo>)>) -> Seq<(Seq<char>, Seq<TableView>)> {
    gs.map_values(|p: (&'static str, Vec<TableInfo>)| (p.0@, p.1@.map_values(|t: TableInfo| table_view(t))))
}

/// Some group of `gs` is named `c`.
pub open spec fn has_group(gs: Seq<(Seq<char>, Seq<TableView>)>, c: Seq<char>) -> bool {
    exists|g: int| 0 <= g < gs.len() && gs[g].0 == c
}

/// `gs` groups the tables of `done` by category: each group holds the
/// tables of its category in order, no category twice, every category of
/// `done`, and no group empty.
pub open spec fn grouped(gs: Seq<(Seq<char>, Seq<TableView>)>, done: Seq<TableView>) -> bool {
    &&& forall|g: int| 0 <= g < gs.len() ==> (#[trigger] gs[g]).1 == in_category(done, gs[g].0)
    &&& forall|g: int, h: int| 0 <= g < h < gs.len() ==> (#[trigger] gs[g]).0 != (#[trigger] gs[h]).0
    &&& forall|k: int| 0 <= k < done.len() ==> has_group(gs, (#[trigger] done[k]).1)
    &&& forall|g: int| 0 <= g < gs.len() ==> (#[trigger] gs[g]).1.len() > 0
}

proof fn lemma_grouped_existing(gs: Seq<(Seq<char>, Seq<TableView>)>, done: Seq<TableView>, t: TableView, g: int)
    requires
        grouped(gs, done),
        0 <= g < gs.len(),
        gs[g].0 == t.1,
    ensures
        grouped(gs.update(g, (gs[g].0, gs[g].1.push(t))), done.push(t)),
{
    let ns = gs.update(g, (gs[g].0, gs[g].1.push(t)));
    let nd = done.push(t);
    assert forall|a: int, b: int| 0 <= a < b < ns.len() implies (#[trigger] ns[a]).0 != (#[trigger] ns[b]).0 by {
        assert(ns[a].0 == gs[a].0 && ns[b].0 == gs[b].0);
    }
    assert forall|h: int| 0 <= h < ns.len() implies (#[trigger] ns[h]).1 == in_category(nd, ns[h].0) by {
        lemma_in_category_push(done, t, gs[h].0);
        if h != g {
            assert(gs[h].0 != gs[g].0);
        }
    }
    assert forall|k: int| 0 <= k < nd.len() implies has_group(ns, (#[trigger] nd[k]).1) by {
        if k < done.len() {
            assert(has_group(gs, done[k].1));
            let h = choose|h: int| 0 <= h < gs.len() && gs[h].0 == done[k].1;
            assert(ns[h].0 == nd[k].1);
        } else {
            assert(ns[g].0 == nd[k].1);
        }
    }
}

proof fn lemma_grouped_new(gs: Seq<(Seq<char>, Seq<TableView>)>, done: Seq<TableView>, t: TableView)
    requires
        grouped(gs, done),
        forall|g: int| 0 <= g < gs.len() ==> (#[trigger] gs[g]).0 != t.1,
    ensures
        grouped(gs.push((t.1, seq![t])), done.push(t)),
{
    let ns = gs.push((t.1, seq![t]));
    let nd = done.push(t);
    assert forall|a: int, b: int| 0 <= a < b < ns.len() implies (#[trigger] ns[a]).0 != (#[trigger] ns[b]).0 by {
        if b < gs.len() {
            assert(ns[a] == gs[a] && ns[b] == gs[b]);
        } else {
            assert(ns[a] == gs[a]);
        }
    }
    assert forall|k: int| 0 <= k < done.len() implies (#[trigger] done[k]).1 != t.1 by {
        assert(has_group(gs, done[k].1));
        let h = choose|h: int| 0 <= h < gs.len() && gs[h].0 == done[k].1;
    }
    lemma_in_category_none(done, t.1);
    assert forall|h: int| 0 <= h < ns.len() implies (#[trigger] ns[h]).1 == in_category(nd, ns[h].0) by {
        lemma_in_category_push(done, t, ns[h].0);
        if h == gs.len() {
            assert(seq![t] =~= Seq::<TableView>::empty().push(t));
        }
    }
    assert forall|k: int| 0 <= k < nd.len() implies has_group(ns, (#[trigger] nd[k]).1) by {
        if k < done.len() {
            assert(has_group(gs, done[k].1));
            let h = choose|h: int| 0 <= h < gs.len() && gs[h].0 == done[k].1;
            assert(ns[h].0 == nd[k].1);
        } else {
            assert(ns[gs.len() as int].0 == nd[k].1);
        }
    }
}

/// The position of the group named `c`, if there is one.
fn find_group(groups: &Vec<(&'static str, Vec<TableInfo>)>, c: &str) -> (r: Option<usize>)
    ensures
        match r {
            Some(g) => g < groups@.len() && groups@[g as int].0@ == c@,
            None => forall|h: int| 0 <= h < groups@.len() ==> (#[trigger] groups@[h]).0@ != c@,
        },
{
    let mut g: usize = 0;
    while g < groups.len()
        invariant
            g <= groups@.len(),
            forall|h: int| 0 <= h < g ==> (#[trigger] groups@[h]).0@ != c@,
        decreases groups@.len() - g,
    {
        if text_eq(groups[g].0, c) {
            return Some(g);
        }
        g = g + 1;
    }
    None
}

/// The catalog grouped by category: categories in order of first
/// appearance, each with its tables in catalog order.
pub fn get_tables_by_category() -> (r: Vec<(&'static str, Vec<TableInfo>)>)
    ensures
        grouped(groups_view(r@), catalog()),
{
    let mut all = tables();
    let ghost cat = catalog();
    let n = all.len();
    let mut groups: Vec<(&'static str, Vec<TableInfo>)> = Vec::new();
    let mut i: usize = 0;
    assert(groups_view(groups@) =~= Seq::empty());
    assert(cat.take(0) =~= Seq::empty());
    while i < n
        invariant
            n == table_count(),
            cat == catalog(),
            cat.len() == n,
            i <= n,
            all@.len() == n - i,
            forall|k: int| 0 <= k < all@.len() ==> table_view(#[trigger] all@[k]) == cat[k + i],
            grouped(groups_view(groups@), cat.take(i as int)),
        decreases n - i,
    {
        let t = all.remove(0);
        let ghost tv = table_view(t);
        assert(tv == cat[i as int]);
        assert(cat.take(i as int + 1) =~= cat.take(i as int).push(tv));
        let ghost gv = groups_view(groups@);
        match find_group(&groups, t.category) {
            Some(g) => {
                proof {
                    lemma_grouped_existing(gv, cat.take(i as int), tv, g as int);
                }
                let mut entry = groups.remove(g);
                let ghost old_entry = entry;
                entry.1.push(t);
                groups.insert(g, entry);
                assert(entry.1@.map_values(|x: TableInfo| table_view(x)) =~= old_entry.1@.map_values(
                    |x: TableInfo| table_view(x),
                ).push(tv));
                assert(groups_view(groups@) =~= gv.update(g as int, (gv[g as int].0, gv[g as int].1.push(tv))));
            },
            None => {
                proof {
                    lemma_grouped_new(gv, cat.take(i as int), tv);
                }
                let category = t.category;
                let mut members: Vec<TableInfo> = Vec::new();
                members.push(t);
                assert(members@.map_values(|x: TableInfo| table_view(x)) =~= seq![tv]);
                groups.push((category, members));
                assert(groups_view(groups@) =~= gv.push((tv.1, seq![tv])));
            },
        }
        i = i + 1;
    }
    assert(cat.take(n as int) =~= cat);
    groups
}

} // verus!
