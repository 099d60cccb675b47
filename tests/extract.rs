use vcsql::providers::blame::BlameProvider;
use vcsql::providers::branches::BranchesProvider;
use vcsql::providers::commit_parents::CommitParentsProvider;
use vcsql::providers::commits::CommitsProvider;
use vcsql::providers::diff_files::DiffFilesProvider;
use vcsql::providers::hooks::HooksProvider;
use vcsql::providers::reflog::ReflogProvider;
use vcsql::providers::refs::RefsProvider;
use vcsql::providers::remotes::{RemotesProvider, join_texts};
use vcsql::providers::stashes::StashesProvider;
use vcsql::providers::status::StatusProvider;
use vcsql::providers::submodules::submodule_status;
use vcsql::providers::tags::TagsProvider;
use vcsql::providers::worktrees::{WorktreesProvider, parse_head};
use vcsql::records::{
    BlameFile, BlameHunk, BranchRecord, CommitRecord, DeltaKind, FileDelta, GitTime, HeadInfo, HookFile,
    LinkedWorktree, MainWorktree, ObjectKind, RefRecord, ReflogEntry, RemoteRecord, Signature, StashRecord,
    StatusEntry, StatusFlags, TagRecord, TaggerRecord, UpstreamRecord,
};
use vcsql::rows::Cell;

#[derive(Debug, PartialEq)]
enum V {
    N,
    I(i64),
    T(String),
}

fn v(row: &[Cell]) -> Vec<V> {
    row.iter()
        .map(|c| match c {
            Cell::Null => V::N,
            Cell::Integer(i) => V::I(*i),
            Cell::Text(s) => V::T(s.clone()),
        })
        .collect()
}

fn t(s: &str) -> V {
    V::T(s.to_string())
}

fn sig(secs: i64, offset: i32) -> Signature {
    Signature { name: "Ann".to_string(), email: "ann@x.org".to_string(), when: GitTime { seconds: secs, offset_minutes: offset } }
}

fn commit(id: &str, parents: &[&str], body: Option<&str>) -> CommitRecord {
    CommitRecord {
        id: id.to_string(),
        tree_id: "tree".to_string(),
        author: sig(0, 60),
        committer: sig(86400, -90),
        message: "subject\n\nbody".to_string(),
        summary: "subject".to_string(),
        body: body.map(|b| b.to_string()),
        parent_ids: parents.iter().map(|p| p.to_string()).collect(),
    }
}

#[test]
fn commit_row_values() {
    let rows = CommitsProvider.rows(&vec![commit("abcdef0123", &["p1", "p2"], Some("body"))], "/r");
    assert_eq!(
        v(&rows[0]),
        vec![
            t("abcdef0123"),
            t("abcdef0"),
            t("tree"),
            t("Ann"),
            t("ann@x.org"),
            t("1970-01-01 00:00:00 +0100"),
            t("Ann"),
            t("ann@x.org"),
            t("1970-01-02 00:00:00 -0130"),
            t("subject\n\nbody"),
            t("subject"),
            t("body"),
            V::I(2),
            V::I(1),
            t("/r"),
        ]
    );
}

#[test]
fn commit_row_short_id_and_empty_body() {
    let rows = CommitsProvider.rows(&vec![commit("abc", &[], Some(""))], "/r");
    let r = v(&rows[0]);
    assert_eq!(r[1], t("abc"));
    assert_eq!(r[11], V::N);
    assert_eq!(r[12], V::I(0));
    assert_eq!(r[13], V::I(0));
}

#[test]
fn merge_parent_edges_keep_order() {
    let rows = CommitParentsProvider.rows(&vec![commit("m", &["first", "second"], None), commit("r", &[], None)], "/r");
    assert_eq!(rows.len(), 2);
    assert_eq!(v(&rows[0]), vec![t("m"), t("first"), V::I(0), t("/r")]);
    assert_eq!(v(&rows[1]), vec![t("m"), t("second"), V::I(1), t("/r")]);
}

#[test]
fn branch_rows() {
    let head = HeadInfo { target: Some("c1".to_string()), name: Some("refs/heads/main".to_string()), detached: false };
    let local = BranchRecord {
        name: "main".to_string(),
        full_name: "refs/heads/main".to_string(),
        target_id: "c1".to_string(),
        is_remote: false,
        is_branch_ref: true,
        upstream: Some(UpstreamRecord { name: Some("origin/main".to_string()), ahead_behind: None }),
    };
    let remote = BranchRecord {
        name: "origin/main".to_string(),
        full_name: "refs/remotes/origin/main".to_string(),
        target_id: "c1".to_string(),
        is_remote: true,
        is_branch_ref: false,
        upstream: None,
    };
    let other = BranchRecord {
        name: "dev".to_string(),
        full_name: "refs/heads/dev".to_string(),
        target_id: "c1".to_string(),
        is_remote: false,
        is_branch_ref: true,
        upstream: Some(UpstreamRecord { name: Some("origin/dev".to_string()), ahead_behind: Some((3, 1)) }),
    };
    let rows = BranchesProvider.rows(&head, &vec![local, remote, other], "/r");
    assert_eq!(
        v(&rows[0]),
        vec![t("main"), t("refs/heads/main"), t("c1"), V::I(0), V::I(1), V::N, t("origin/main"), V::I(0), V::I(0), t("/r")]
    );
    assert_eq!(
        v(&rows[1]),
        vec![t("origin/main"), t("refs/remotes/origin/main"), t("c1"), V::I(1), V::I(0), t("origin"), V::N, V::N, V::N, t("/r")]
    );
    assert_eq!(v(&rows[2])[4..9], [V::I(0), V::N, t("origin/dev"), V::I(3), V::I(1)]);
}

#[test]
fn detached_head_marks_no_branch() {
    let head = HeadInfo { target: Some("c1".to_string()), name: Some("HEAD".to_string()), detached: true };
    let b = BranchRecord {
        name: "main".to_string(),
        full_name: "refs/heads/main".to_string(),
        target_id: "c1".to_string(),
        is_remote: false,
        is_branch_ref: true,
        upstream: None,
    };
    let rows = BranchesProvider.rows(&head, &vec![b], "/r");
    assert_eq!(v(&rows[0])[4], V::I(0));
}

#[test]
fn tag_rows() {
    let annotated = TagRecord::Annotated {
        full_name: "refs/tags/v1".to_string(),
        target_id: "c1".to_string(),
        target_kind: ObjectKind::Commit,
        tagger: Some(TaggerRecord { name: Some("Ann".to_string()), email: None, when: GitTime { seconds: 0, offset_minutes: 120 } }),
        message: Some("release".to_string()),
    };
    let light = TagRecord::Lightweight { full_name: "refs/tags/v0".to_string(), target_id: "c0".to_string(), kind: ObjectKind::Tag };
    let rows = TagsProvider.rows(&vec![annotated, light], "/r");
    assert_eq!(
        v(&rows[0]),
        vec![t("v1"), t("refs/tags/v1"), t("c1"), t("commit"), V::I(1), t("Ann"), V::N, t("1970-01-01 00:00:00"), t("release"), t("/r")]
    );
    assert_eq!(
        v(&rows[1]),
        vec![t("v0"), t("refs/tags/v0"), t("c0"), t("unknown"), V::I(0), V::N, V::N, V::N, V::N, t("/r")]
    );
}

fn reference(full: &str, sym: bool) -> RefRecord {
    RefRecord {
        full_name: full.to_string(),
        shorthand: "s".to_string(),
        is_symbolic: sym,
        symbolic_target: if sym { Some("refs/heads/main".to_string()) } else { None },
        target: if sym { None } else { Some("c1".to_string()) },
        resolved_target: if sym { Some("c9".to_string()) } else { None },
    }
}

#[test]
fn ref_kinds() {
    let refs = vec![
        reference("refs/heads/main", false),
        reference("refs/remotes/origin/main", false),
        reference("refs/tags/v1", false),
        reference("refs/notes/commits", false),
        reference("refs/stash", false),
        reference("HEAD", true),
    ];
    let rows = RefsProvider.rows(&refs, "/r");
    let kinds: Vec<V> = rows.iter().map(|r| v(r).remove(3)).collect();
    assert_eq!(kinds, vec![t("branch"), t("remote"), t("tag"), t("note"), t("stash"), t("other")]);
    assert_eq!(v(&rows[0])[2], t("c1"));
    assert_eq!(v(&rows[0])[5], V::N);
    assert_eq!(v(&rows[5])[2], t("c9"));
    assert_eq!(v(&rows[5])[4], V::I(1));
    assert_eq!(v(&rows[5])[5], t("refs/heads/main"));
}

#[test]
fn stash_rows_indexed() {
    let stashes = vec![
        StashRecord { message: "WIP on feature-x: 1234abc fix bug".to_string(), commit_id: "s0".to_string(), author: sig(0, 0) },
        StashRecord { message: "odd".to_string(), commit_id: "s1".to_string(), author: sig(0, 0) },
    ];
    let rows = StashesProvider.rows(&stashes, "/r");
    assert_eq!(v(&rows[0])[0], V::I(0));
    assert_eq!(v(&rows[0])[6], t("feature-x"));
    assert_eq!(v(&rows[1])[0], V::I(1));
    assert_eq!(v(&rows[1])[6], t("unknown"));
    assert_eq!(v(&rows[1])[5], t("1970-01-01 00:00:00"));
}

#[test]
fn reflog_entry_rows() {
    let entries = vec![
        ReflogEntry { old_id: "a".to_string(), new_id: "b".to_string(), committer: sig(0, 0), message: "commit: x".to_string() },
        ReflogEntry { old_id: "0".to_string(), new_id: "a".to_string(), committer: sig(0, 0), message: "clone: from y".to_string() },
    ];
    let rows = ReflogProvider.entry_rows("HEAD", &entries, "/r");
    assert_eq!(
        v(&rows[1]),
        vec![t("HEAD"), V::I(1), t("0"), t("a"), t("Ann"), t("ann@x.org"), t("1970-01-01 00:00:00"), t("clone: from y"), t("clone"), t("/r")]
    );
}

#[test]
fn diff_file_row() {
    let d = FileDelta {
        old_path: None,
        new_path: Some("src/a.rs".to_string()),
        kind: DeltaKind::Added,
        insertions: 10,
        deletions: 0,
        old_is_binary: false,
        new_is_binary: true,
    };
    let row = DiffFilesProvider.row("c1", None, &d, "/r");
    assert_eq!(v(&row), vec![t("c1"), V::N, V::N, t("src/a.rs"), t("A"), V::I(10), V::I(0), V::I(1), V::N, t("/r")]);
    let mut d2 = d;
    d2.kind = DeltaKind::Untracked;
    assert_eq!(v(&DiffFilesProvider.row("c1", Some("p"), &d2, "/r"))[1..5], [t("p"), V::N, t("src/a.rs"), t("?")]);
}

#[test]
fn status_row_flags() {
    let flags = StatusFlags {
        index_new: false,
        index_modified: true,
        index_deleted: false,
        index_renamed: false,
        index_typechange: false,
        wt_new: false,
        wt_modified: true,
        wt_deleted: false,
        wt_typechange: false,
        wt_renamed: false,
        ignored: false,
        conflicted: false,
    };
    let rows = StatusProvider.rows(&vec![StatusEntry { path: "a.txt".to_string(), flags }], "/r");
    assert_eq!(
        v(&rows[0]),
        vec![t("a.txt"), t("MM"), t("M"), t("M"), V::I(1), V::I(1), V::I(0), V::I(0), V::I(0), V::I(0), V::I(0), V::I(0), t("/r")]
    );
    let untracked = StatusFlags { index_modified: false, wt_modified: false, wt_new: true, ..flags };
    let rows = StatusProvider.rows(&vec![StatusEntry { path: "n".to_string(), flags: untracked }], "/r");
    assert_eq!(v(&rows[0])[1..5], [t(" ?"), t(" "), t("?"), V::I(0)]);
}

#[test]
fn submodule_states() {
    let s = |x: Option<&str>| x.map(|y| y.to_string());
    assert_eq!(submodule_status(&None, &None), "uninitialized");
    assert_eq!(submodule_status(&s(Some("a")), &s(Some("a"))), "current");
    assert_eq!(submodule_status(&s(Some("a")), &s(Some("b"))), "modified");
    assert_eq!(submodule_status(&s(Some("a")), &None), "uninitialized");
    assert_eq!(submodule_status(&None, &s(Some("b"))), "added");
}

#[test]
fn remote_refspecs_joined() {
    assert_eq!(join_texts(&vec!["a".to_string(), "b".to_string(), "c".to_string()], ", "), "a, b, c");
    assert_eq!(join_texts(&vec![], ", "), "");
    let r = RemoteRecord {
        name: "origin".to_string(),
        url: Some("https://x/r.git".to_string()),
        push_url: None,
        fetch_refspecs: Some(vec!["+refs/heads/*:refs/remotes/origin/*".to_string()]),
        push_refspecs: Some(vec![]),
    };
    let rows = RemotesProvider.rows(&vec![r], "/r");
    assert_eq!(
        v(&rows[0]),
        vec![t("origin"), t("https://x/r.git"), V::N, t("+refs/heads/*:refs/remotes/origin/*"), V::N, t("/r")]
    );
}

#[test]
fn worktree_rows() {
    let main = MainWorktree { path: "/w".to_string(), head_id: Some("c1".to_string()), branch: Some("main".to_string()), is_bare: false, is_detached: false };
    let linked = vec![
        LinkedWorktree {
            name: "wt1".to_string(),
            gitdir: Some("/tmp/wt1/.git\n".to_string()),
            head: Some("ref: refs/heads/feature\n".to_string()),
            locked: Some(Some("busy".to_string())),
        },
        LinkedWorktree { name: "wt2".to_string(), gitdir: None, head: Some("c2\n".to_string()), locked: None },
    ];
    let rows = WorktreesProvider.rows(&main, &linked, "/r");
    assert_eq!(rows.len(), 3);
    assert_eq!(v(&rows[0]), vec![t("main"), t("/w"), t("c1"), t("main"), V::I(0), V::I(0), V::I(0), V::N, V::I(0), t("/r")]);
    assert_eq!(v(&rows[1]), vec![t("wt1"), t("/tmp/wt1"), V::N, t("feature"), V::I(0), V::I(0), V::I(1), t("busy"), V::I(0), t("/r")]);
    assert_eq!(v(&rows[2]), vec![t("wt2"), V::N, t("c2"), V::N, V::I(0), V::I(1), V::I(0), V::N, V::I(0), t("/r")]);
}

#[test]
fn head_file_parsing() {
    assert_eq!(parse_head("ref: refs/heads/dev"), (None, Some("dev".to_string()), false));
    assert_eq!(parse_head("ref: refs/tags/x"), (None, Some("refs/tags/x".to_string()), false));
    assert_eq!(parse_head("abc123"), (Some("abc123".to_string()), None, true));
}

#[test]
fn hook_rows_filtered() {
    let f = |name: &str, exec: bool| HookFile { file_name: name.to_string(), path: format!("/h/{}", name), is_executable: exec, size: 42 };
    let rows = HooksProvider.rows(&vec![f("pre-commit", true), f("readme.txt", false), f("custom.sample", false)], "/r");
    assert_eq!(rows.len(), 2);
    assert_eq!(v(&rows[0]), vec![t("pre-commit"), t("/h/pre-commit"), V::I(1), V::I(0), V::I(42), t("/r")]);
    assert_eq!(v(&rows[1]), vec![t("custom"), t("/h/custom.sample"), V::I(0), V::I(1), V::I(42), t("/r")]);
}

#[test]
fn blame_rows_per_line() {
    let hunks = vec![
        BlameHunk { final_start_line: 1, lines_in_hunk: 2, commit_id: "c1".to_string(), orig_start_line: 5, orig_path: None, signature: sig(0, 0) },
        BlameHunk { final_start_line: 3, lines_in_hunk: 1, commit_id: "c2".to_string(), orig_start_line: 1, orig_path: Some("old.rs".to_string()), signature: sig(0, 0) },
    ];
    let file = BlameFile { hunks, lines: vec!["a".to_string(), "b".to_string()] };
    let provider = BlameProvider::new(None);
    assert!(provider.path_filter.is_none());
    let rows = provider.file_rows("new.rs", &file, "/r");
    assert_eq!(rows.len(), 3);
    assert_eq!(
        v(&rows[1]),
        vec![t("new.rs"), V::I(2), t("c1"), V::I(6), t("new.rs"), t("Ann"), t("ann@x.org"), t("1970-01-01 00:00:00"), t("b"), t("/r")]
    );
    assert_eq!(v(&rows[2])[..5], [t("new.rs"), V::I(3), t("c2"), V::I(1), t("old.rs")]);
    assert_eq!(v(&rows[2])[8], t(""));
}
