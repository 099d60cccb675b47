use vcsql::records::{
    BlameFile, BlameHunk, BranchRecord, CommitRecord, ConfigEntry, ConfigLevel, DiffStats, FileDelta, GitTime,
    HeadInfo, HookFile, LinkedWorktree, MainWorktree, NoteRecord, RefRecord, ReflogEntry, RemoteRecord,
    Signature, StashRecord, StatusEntry, SubmoduleRecord, TagRecord,
};
use vcsql::{RepoSource, SqlEngine, VcsqlError};

fn sig(secs: i64) -> Signature {
    Signature { name: "Ann".to_string(), email: "ann@example.com".to_string(), when: GitTime { seconds: secs, offset_minutes: 0 } }
}

fn commit(id: &str, secs: i64, parents: &[&str]) -> CommitRecord {
    CommitRecord {
        id: id.to_string(),
        tree_id: format!("tree-{}", id),
        author: sig(secs),
        committer: sig(secs),
        message: format!("message {}\n", id),
        summary: format!("message {}", id),
        body: None,
        parent_ids: parents.iter().map(|p| p.to_string()).collect(),
    }
}

/// A repository held in memory: a root commit and a child commit.
struct TwoCommits {
    path: String,
    commit_reads: usize,
    fail_commits: bool,
    duplicate: bool,
}

impl TwoCommits {
    fn new() -> Self {
        TwoCommits { path: "/work/repo".to_string(), commit_reads: 0, fail_commits: false, duplicate: false }
    }
}

const M1: &str = "1111111111111111111111111111111111111111";
const M2: &str = "2222222222222222222222222222222222222222";

impl RepoSource for TwoCommits {
    fn repo_path(&self) -> String {
        self.path.clone()
    }
    fn commits(&mut self) -> Result<Vec<CommitRecord>, String> {
        self.commit_reads += 1;
        if self.fail_commits {
            return Err("cannot walk".to_string());
        }
        if self.duplicate {
            return Ok(vec![commit(M1, 1000, &[]), commit(M1, 1000, &[])]);
        }
        Ok(vec![commit(M2, 2000, &[M1]), commit(M1, 1000, &[])])
    }
    fn diff_stats(&mut self, _c: &str, _p: Option<&str>) -> Result<DiffStats, String> {
        Ok(DiffStats { files_changed: 1, insertions: 2, deletions: 0 })
    }
    fn diff_files(&mut self, _c: &str, _p: Option<&str>) -> Result<Vec<FileDelta>, String> {
        Ok(vec![])
    }
    fn head(&mut self) -> HeadInfo {
        HeadInfo { target: Some(M2.to_string()), name: Some("refs/heads/main".to_string()), detached: false }
    }
    fn branches(&mut self) -> Result<Vec<BranchRecord>, String> {
        Ok(vec![BranchRecord {
            name: "main".to_string(),
            full_name: "refs/heads/main".to_string(),
            target_id: M2.to_string(),
            is_remote: false,
            is_branch_ref: true,
            upstream: None,
        }])
    }
    fn tags(&mut self) -> Result<Vec<TagRecord>, String> {
        let tag = |target: &str| TagRecord::Lightweight {
            full_name: "refs/tags/v1".to_string(),
            target_id: target.to_string(),
            kind: vcsql::records::ObjectKind::Commit,
        };
        Ok(vec![tag(M1), tag(M2)])
    }
    fn references(&mut self) -> Result<Vec<RefRecord>, String> {
        Ok(vec![])
    }
    fn stashes(&mut self) -> Result<Vec<StashRecord>, String> {
        Ok(vec![])
    }
    fn reflog(&mut self, _r: &str) -> Option<Vec<ReflogEntry>> {
        None
    }
    fn head_blob_paths(&mut self) -> Result<Vec<String>, String> {
        Ok(vec![])
    }
    fn blame(&mut self, _p: &str) -> Option<BlameFile> {
        None
    }
    fn config_entries(&mut self) -> Vec<ConfigEntry> {
        vec![ConfigEntry { level: ConfigLevel::Local, name: Some("user.name".to_string()), value: Some("Ann".to_string()) }]
    }
    fn remotes(&mut self) -> Vec<RemoteRecord> {
        vec![]
    }
    fn submodules(&mut self) -> Vec<SubmoduleRecord> {
        vec![]
    }
    fn statuses(&mut self) -> Vec<StatusEntry> {
        vec![]
    }
    fn main_worktree(&mut self) -> MainWorktree {
        MainWorktree { path: "/work/repo".to_string(), head_id: Some(M2.to_string()), branch: Some("main".to_string()), is_bare: false, is_detached: false }
    }
    fn linked_worktrees(&mut self) -> Vec<LinkedWorktree> {
        vec![]
    }
    fn hook_files(&mut self) -> Result<Vec<HookFile>, String> {
        Ok(vec![])
    }
    fn notes(&mut self, _r: &str) -> Vec<NoteRecord> {
        vec![]
    }
}

fn count(engine: &SqlEngine, table: &str) -> i64 {
    engine
        .connection()
        .query_row(&format!("SELECT COUNT(*) FROM {}", table), [], |r| r.get(0))
        .unwrap()
}

#[test]
fn load_table_twice_extracts_once() {
    let mut engine = SqlEngine::new().unwrap();
    let mut repo = TwoCommits::new();
    engine.load_table("commits", &mut repo).unwrap();
    assert_eq!(count(&engine, "commits"), 2);
    assert!(engine.is_loaded("commits", "/work/repo"));
    engine.load_table("commits", &mut repo).unwrap();
    assert_eq!(count(&engine, "commits"), 2);
    assert_eq!(repo.commit_reads, 1);
}

#[test]
fn unknown_table_is_not_found() {
    let mut engine = SqlEngine::new().unwrap();
    let mut repo = TwoCommits::new();
    match engine.load_table("nope", &mut repo) {
        Err(VcsqlError::TableNotFound(name)) => assert_eq!(name, "nope"),
        other => panic!("unexpected: {:?}", other.map(|_| ())),
    }
    assert!(!engine.is_loaded("nope", "/work/repo"));
}

#[test]
fn failed_extraction_is_not_marked_loaded() {
    let mut engine = SqlEngine::new().unwrap();
    let mut repo = TwoCommits::new();
    repo.fail_commits = true;
    match engine.load_table("commits", &mut repo) {
        Err(VcsqlError::Git(msg)) => assert_eq!(msg, "cannot walk"),
        other => panic!("unexpected: {:?}", other.map(|_| ())),
    }
    assert!(!engine.is_loaded("commits", "/work/repo"));
    repo.fail_commits = false;
    engine.load_table("commits", &mut repo).unwrap();
    assert!(engine.is_loaded("commits", "/work/repo"));
    assert_eq!(count(&engine, "commits"), 2);
}

#[test]
fn two_commit_history_query() {
    let mut engine = SqlEngine::new().unwrap();
    let mut repo = TwoCommits::new();
    let sql = "SELECT short_id, parent_count, is_merge FROM commits ORDER BY authored_at";
    engine.load_tables_for_query(sql, &mut repo).unwrap();
    let mut stmt = engine.connection().prepare(sql).unwrap();
    let rows: Vec<(String, i64, i64)> = stmt
        .query_map([], |r| Ok((r.get(0)?, r.get(1)?, r.get(2)?)))
        .unwrap()
        .map(|r| r.unwrap())
        .collect();
    assert_eq!(rows, vec![("1111111".to_string(), 0, 0), ("2222222".to_string(), 1, 0)]);
}

#[test]
fn query_loads_only_referenced_tables() {
    let mut engine = SqlEngine::new().unwrap();
    let mut repo = TwoCommits::new();
    engine
        .load_tables_for_query("SELECT c.summary FROM commits c JOIN branches b ON b.target_id = c.id", &mut repo)
        .unwrap();
    assert!(engine.is_loaded("commits", "/work/repo"));
    assert!(engine.is_loaded("branches", "/work/repo"));
    assert!(!engine.is_loaded("tags", "/work/repo"));
    let head: i64 = engine
        .connection()
        .query_row("SELECT is_head FROM branches WHERE name = 'main'", [], |r| r.get(0))
        .unwrap();
    assert_eq!(head, 1);
}

#[test]
fn diffs_fan_out_per_parent() {
    let mut engine = SqlEngine::new().unwrap();
    let mut repo = TwoCommits::new();
    engine.load_table("diffs", &mut repo).unwrap();
    let root_parent: Option<String> = engine
        .connection()
        .query_row(&format!("SELECT parent_id FROM diffs WHERE commit_id = '{}'", M1), [], |r| r.get(0))
        .unwrap();
    assert_eq!(root_parent, None);
    assert_eq!(count(&engine, "diffs"), 2);
}

#[test]
fn config_rows_in_store() {
    let mut engine = SqlEngine::new().unwrap();
    let mut repo = TwoCommits::new();
    engine.load_table("config", &mut repo).unwrap();
    let row: (String, String, Option<String>, String, String) = engine
        .connection()
        .query_row("SELECT level, section, subsection, key, repo FROM config", [], |r| {
            Ok((r.get(0)?, r.get(1)?, r.get(2)?, r.get(3)?, r.get(4)?))
        })
        .unwrap();
    assert_eq!(row, ("local".to_string(), "user".to_string(), None, "name".to_string(), "/work/repo".to_string()));
}

#[test]
fn every_table_loads_from_an_empty_source() {
    let mut engine = SqlEngine::new().unwrap();
    let mut repo = TwoCommits::new();
    for t in vcsql::tables() {
        engine.load_table(t.name, &mut repo).unwrap();
        assert!(engine.is_loaded(t.name, "/work/repo"));
    }
    assert_eq!(count(&engine, "worktrees"), 1);
}

#[test]
fn duplicate_keys_fail_with_store_error() {
    let mut engine = SqlEngine::new().unwrap();
    let mut repo = TwoCommits::new();
    repo.duplicate = true;
    match engine.load_table("commits", &mut repo) {
        Err(VcsqlError::Sql(_)) => {}
        other => panic!("unexpected: {:?}", other.map(|_| ())),
    }
    assert!(!engine.is_loaded("commits", "/work/repo"));
}

#[test]
fn tags_keep_first_of_equal_keys() {
    let mut engine = SqlEngine::new().unwrap();
    let mut repo = TwoCommits::new();
    engine.load_table("tags", &mut repo).unwrap();
    assert_eq!(count(&engine, "tags"), 1);
    let target: String = engine
        .connection()
        .query_row("SELECT target_id FROM tags", [], |r| r.get(0))
        .unwrap();
    assert_eq!(target, M1);
}

#[test]
fn extract_table_names_on_engine() {
    assert_eq!(
        SqlEngine::extract_table_names("SELECT * FROM reflog JOIN refs USING (repo)"),
        vec!["refs".to_string(), "reflog".to_string()]
    );
}

#[test]
fn rows_of_each_repository_accumulate() {
    let mut engine = SqlEngine::new().unwrap();
    let mut a = TwoCommits::new();
    let mut b = TwoCommits::new();
    b.path = "/work/other".to_string();
    let sql = "SELECT * FROM commits";
    engine.load_tables_for_query(sql, &mut a).unwrap();
    engine.load_tables_for_query(sql, &mut b).unwrap();
    engine.load_tables_for_query(sql, &mut a).unwrap();
    assert_eq!(count(&engine, "commits"), 4);
    assert!(engine.is_loaded("commits", "/work/repo"));
    assert!(engine.is_loaded("commits", "/work/other"));
    assert_eq!(a.commit_reads, 1);
    assert_eq!(b.commit_reads, 1);
}

#[test]
fn load_at_explicit_path() {
    let mut engine = SqlEngine::new().unwrap();
    let mut repo = TwoCommits::new();
    engine.load_table_at("refs", &mut repo, "/elsewhere").unwrap();
    assert!(engine.is_loaded("refs", "/elsewhere"));
    assert!(!engine.is_loaded("refs", "/work/repo"));
    engine.load_tables_for_query_at("SELECT * FROM refs", &mut repo, "/elsewhere").unwrap();
}
