//! The projection engine: owns the embedded relational store and the set of
//! tables already loaded in this session, and loads each table a query
//! refers to at most once.
use vstd::prelude::*;
use crate::error::VcsqlError;
use crate::encoding::{
    booleans_encoded, lemma_branch_booleans, lemma_commit_booleans, lemma_delta_booleans, lemma_hook_booleans,
    lemma_linked_worktree_booleans, lemma_main_worktree_booleans, lemma_no_boolean_columns, lemma_ref_booleans,
    lemma_status_booleans, lemma_tag_booleans,
};
use crate::providers::blame::{BlameProvider, blame_rows};
use crate::providers::branches::{BranchesProvider, branch_row};
use crate::providers::commit_parents::{CommitParentsProvider, parent_rows};
use crate::providers::commits::{CommitsProvider, commit_row};
use crate::providers::config::{ConfigProvider, config_rows};
use crate::providers::diff_files::{DiffFilesProvider, all_delta_rows};
use crate::providers::diffs::{DiffsProvider, all_diff_keys, diff_rows};
use crate::providers::hooks::{HooksProvider, hook_listed, hook_rows};
use crate::providers::notes::{NotesProvider, all_notes_rows, notes_refs};
use crate::providers::reflog::{ReflogProvider, local_branches, reflogs_rows};
use crate::providers::refs::{RefsProvider, ref_row};
use crate::providers::remotes::{RemotesProvider, remote_row};
use crate::providers::stashes::{StashesProvider, stash_row};
use crate::providers::status::{StatusProvider, status_row};
use crate::providers::submodules::{SubmodulesProvider, submodule_row};
use crate::providers::tags::{TagsProvider, tag_row};
use crate::providers::worktrees::{WorktreesProvider, linked_row, main_row};
use crate::query::{extract_table_names, referenced_tables};
use crate::records::{
    BlameFile, BranchRecord, CommitRecord, ConfigEntry, DiffStats, FileDelta, HeadInfo, HookFile, LinkedWorktree,
    MainWorktree, NoteRecord, RefRecord, ReflogEntry, RemoteRecord, StashRecord, StatusEntry, SubmoduleRecord,
    TagRecord,
};
use crate::rows::{Cell, CellView, Row, row_view, rows_view};
use crate::schema::{get_table_info, lemma_table_position, table_names, table_position};
use crate::source::RepoSource;
use crate::text::text_eq;

verus! {

/// rusqlite's connection to an SQLite database, carried as an opaque value.
#[verifier::external_type_specification]
#[verifier::external_body]
pub struct ExConnection(rusqlite::Connection);

/// Relies on `rusqlite::Connection::open_in_memory`: a new, empty in-memory
/// database, or the error of the underlying open call.
#[verifier::external_body]
fn open_store() -> (r: Result<rusqlite::Connection, rusqlite::Error>) {
    rusqlite::Connection::open_in_memory()
}

/// Relies on `rusqlite::Connection::execute`: runs one statement with the
/// cells bound to its positional parameters in order, each cell turned into
/// the store's value of the same kind.
#[verifier::external_body]
fn execute(conn: &rusqlite::Connection, sql: &str, cells: &Vec<Cell>) -> (r: Result<usize, rusqlite::Error>) {
    let values = cells.iter().map(|c| match c {
        Cell::Null => rusqlite::types::Value::Null,
        Cell::Integer(i) => rusqlite::types::Value::Integer(*i),
        Cell::Text(s) => rusqlite::types::Value::Text(s.clone()),
    });
    conn.execute(sql, rusqlite::params_from_iter(values))
}

/// The statement that inserts one row of `n` values into table `name`.
pub open spec fn insert_sql(name: Seq<char>, n: nat) -> Seq<char> {
    "INSERT INTO "@ + name + " VALUES ("@ + placeholders(n) + ")"@
}

/// `n` positional parameters separated by commas.
pub open spec fn placeholders(n: nat) -> Seq<char>
    decreases n,
{
    if n == 0 {
        Seq::empty()
    } else if n == 1 {
        seq!['?']
    } else {
        placeholders((n - 1) as nat) + ", ?"@
    }
}

/// Builds the insert statement of a table with `n` columns.
pub fn insert_statement(name: &str, n: usize) -> (r: String)
    ensures
        r@ == insert_sql(name@, n as nat),
{
    let mut s = String::from_str("INSERT INTO ");
    s.append(name);
    s.append(" VALUES (");
    let ghost head = s@;
    let mut i: usize = 0;
    while i < n
        invariant
            i <= n,
            s@ == head + placeholders(i as nat),
        decreases n - i,
    {
        if i == 0 {
            s.append("?");
            proof {
                reveal_strlit("?");
            }
            assert(s@ =~= head + placeholders(1));
        } else {
            s.append(", ?");
            assert(s@ =~= head + placeholders((i + 1) as nat));
        }
        i = i + 1;
    }
    s.append(")");
    assert(s@ =~= insert_sql(name@, n as nat));
    s
}

/// One row per commit.
pub open spec fn commit_rows(cs: Seq<CommitRecord>, p: Seq<char>) -> Seq<Seq<CellView>> {
    Seq::new(cs.len(), |i: int| commit_row(cs[i], p))
}

pub open spec fn branch_rows(h: HeadInfo, bs: Seq<BranchRecord>, p: Seq<char>) -> Seq<Seq<CellView>> {
    Seq::new(bs.len(), |i: int| branch_row(h, bs[i], p))
}

pub open spec fn tag_rows(ts: Seq<TagRecord>, p: Seq<char>) -> Seq<Seq<CellView>> {
    Seq::new(ts.len(), |i: int| tag_row(ts[i], p))
}

pub open spec fn ref_rows(rs: Seq<RefRecord>, p: Seq<char>) -> Seq<Seq<CellView>> {
    Seq::new(rs.len(), |i: int| ref_row(rs[i], p))
}

pub open spec fn stash_rows(ss: Seq<StashRecord>, p: Seq<char>) -> Seq<Seq<CellView>> {
    Seq::new(ss.len(), |i: int| stash_row(i, ss[i], p))
}

pub open spec fn remote_rows(rs: Seq<RemoteRecord>, p: Seq<char>) -> Seq<Seq<CellView>> {
    Seq::new(rs.len(), |i: int| remote_row(rs[i], p))
}

pub open spec fn submodule_rows(ss: Seq<SubmoduleRecord>, p: Seq<char>) -> Seq<Seq<CellView>> {
    Seq::new(ss.len(), |i: int| submodule_row(ss[i], p))
}

pub open spec fn status_rows(es: Seq<StatusEntry>, p: Seq<char>) -> Seq<Seq<CellView>> {
    Seq::new(es.len(), |i: int| status_row(es[i], p))
}

pub open spec fn worktree_rows(m: MainWorktree, ls: Seq<LinkedWorktree>, p: Seq<char>) -> Seq<Seq<CellView>> {
    seq![main_row(m, p)] + Seq::new(ls.len(), |i: int| linked_row(ls[i], p))
}

/// `rv` are the rows of `table` for some answer of the repository handle,
/// each built as that table's extractor builds it.
pub open spec fn extracted(table: Seq<char>, rv: Seq<Seq<CellView>>, p: Seq<char>) -> bool {
    if table == "commits"@ {
        exists|cs: Seq<CommitRecord>| rv == #[trigger] commit_rows(cs, p)
    } else if table == "commit_parents"@ {
        exists|cs: Seq<CommitRecord>| rv == #[trigger] parent_rows(cs, p)
    } else if table == "branches"@ {
        exists|h: HeadInfo, bs: Seq<BranchRecord>| rv == #[trigger] branch_rows(h, bs, p)
    } else if table == "tags"@ {
        exists|ts: Seq<TagRecord>| rv == #[trigger] tag_rows(ts, p)
    } else if table == "refs"@ {
        exists|rs: Seq<RefRecord>| rv == #[trigger] ref_rows(rs, p)
    } else if table == "stashes"@ {
        exists|ss: Seq<StashRecord>| rv == #[trigger] stash_rows(ss, p)
    } else if table == "reflog"@ {
        exists|rs: Seq<RefRecord>, logs: Seq<Option<Seq<ReflogEntry>>>|
            logs.len() == local_branches(rs).len() + 1 && rv == #[trigger] reflogs_rows(
                seq!["HEAD"@] + local_branches(rs),
                logs,
                p,
            )
    } else if table == "diffs"@ {
        exists|cs: Seq<CommitRecord>, stats: Seq<DiffStats>|
            stats.len() == all_diff_keys(cs).len() && rv == #[trigger] diff_rows(all_diff_keys(cs), stats, p)
    } else if table == "diff_files"@ {
        exists|cs: Seq<CommitRecord>, lists: Seq<Seq<FileDelta>>|
            lists.len() == all_diff_keys(cs).len() && rv == #[trigger] all_delta_rows(all_diff_keys(cs), lists, p)
    } else if table == "blame"@ {
        exists|ps: Seq<Seq<char>>, fs: Seq<Option<BlameFile>>|
            ps.len() == fs.len() && rv == #[trigger] blame_rows(ps, fs, p)
    } else if table == "config"@ {
        exists|es: Seq<ConfigEntry>| rv == #[trigger] config_rows(es, p)
    } else if table == "remotes"@ {
        exists|rs: Seq<RemoteRecord>| rv == #[trigger] remote_rows(rs, p)
    } else if table == "submodules"@ {
        exists|ss: Seq<SubmoduleRecord>| rv == #[trigger] submodule_rows(ss, p)
    } else if table == "status"@ {
        exists|es: Seq<StatusEntry>| rv == #[trigger] status_rows(es, p)
    } else if table == "worktrees"@ {
        exists|m: MainWorktree, ls: Seq<LinkedWorktree>| rv == #[trigger] worktree_rows(m, ls, p)
    } else if table == "hooks"@ {
        exists|fs: Seq<HookFile>| rv == #[trigger] hook_rows(fs, p)
    } else if table == "notes"@ {
        exists|rs: Seq<RefRecord>, lists: Seq<Seq<NoteRecord>>|
            lists.len() == notes_refs(rs).len() && rv == #[trigger] all_notes_rows(notes_refs(rs), lists, p)
    } else {
        false
    }
}

/// Tables whose extraction no answer of the repository handle can fail.
pub open spec fn never_fails(table: Seq<char>) -> bool {
    table == "config"@ || table == "remotes"@ || table == "submodules"@ || table == "status"@ || table
        == "worktrees"@
}

/// Every row of the diff-file rows holds 0 or 1 in its boolean column.
proof fn lemma_delta_rows_booleans(
    keys: Seq<(Seq<char>, Option<Seq<char>>)>,
    lists: Seq<Seq<FileDelta>>,
    p: Seq<char>,
    i: int,
)
    requires
        0 <= i < all_delta_rows(keys, lists, p).len(),
    ensures
        booleans_encoded(8, all_delta_rows(keys, lists, p)[i]),
    decreases keys.len(),
{
    if keys.len() > 0 && lists.len() == keys.len() {
        let a = all_delta_rows(keys.drop_last(), lists.drop_last(), p);
        if i < a.len() {
            lemma_delta_rows_booleans(keys.drop_last(), lists.drop_last(), p, i);
        } else {
            let k = keys.last();
            lemma_delta_booleans(k.0, k.1, lists.last()[i - a.len()], p);
        }
    }
}

/// Rows of one table, read through the repository handle: the rows that
/// table's extractor builds from what the handle answered. Every column the
/// catalog declares boolean holds 0 or 1 in every row.
pub fn extract_rows<R: RepoSource>(table: &str, repo: &mut R, path: &str) -> (r: Result<Vec<Row>, VcsqlError>)
    ensures
        r is Err ==> (r->Err_0 is Git || r->Err_0 is Io || r->Err_0 is TableNotFound),
        (r is Err && r->Err_0 is TableNotFound) <==> !table_names().contains(table@),
        never_fails(table@) ==> r is Ok,
        r is Ok ==> extracted(table@, rows_view(r->Ok_0@), path@),
        r is Ok ==> forall|i: int|
            0 <= i < r->Ok_0@.len() ==> booleans_encoded(table_position(table@), row_view(#[trigger] r->Ok_0@[i])),
{
    proof {
        crate::schema::lemma_table_names_distinct();
        let n = table_names();
        assert(n[0] != n[10] && n[0] != n[11] && n[0] != n[12] && n[0] != n[13] && n[0] != n[14]);
        assert(n[1] != n[10] && n[1] != n[11] && n[1] != n[12] && n[1] != n[13] && n[1] != n[14]);
        assert(n[2] != n[10] && n[2] != n[11] && n[2] != n[12] && n[2] != n[13] && n[2] != n[14]);
        assert(n[3] != n[10] && n[3] != n[11] && n[3] != n[12] && n[3] != n[13] && n[3] != n[14]);
        assert(n[4] != n[10] && n[4] != n[11] && n[4] != n[12] && n[4] != n[13] && n[4] != n[14]);
        assert(n[5] != n[10] && n[5] != n[11] && n[5] != n[12] && n[5] != n[13] && n[5] != n[14]);
        assert(n[6] != n[10] && n[6] != n[11] && n[6] != n[12] && n[6] != n[13] && n[6] != n[14]);
        assert(n[7] != n[10] && n[7] != n[11] && n[7] != n[12] && n[7] != n[13] && n[7] != n[14]);
        assert(n[8] != n[10] && n[8] != n[11] && n[8] != n[12] && n[8] != n[13] && n[8] != n[14]);
        assert(n[9] != n[10] && n[9] != n[11] && n[9] != n[12] && n[9] != n[13] && n[9] != n[14]);
        assert(n[15] != n[10] && n[15] != n[11] && n[15] != n[12] && n[15] != n[13] && n[15] != n[14]);
        assert(n[16] != n[10] && n[16] != n[11] && n[16] != n[12] && n[16] != n[13] && n[16] != n[14]);
    }
    if text_eq(table, "commits") {
        proof {
            lemma_table_position(0);
        }
        match repo.commits() {
            Ok(v) => {
                let rows = CommitsProvider.rows(&v, path);
                proof {
                    assert forall|i: int| 0 <= i < rows@.len() implies booleans_encoded(0, row_view(#[trigger] rows@[i])) by {
                        lemma_commit_booleans(v@[i], path@);
                    }
                }
                assert(rows_view(rows@) =~= commit_rows(v@, path@));
                Ok(rows)
            },
            Err(e) => Err(VcsqlError::Git(e)),
        }
    } else if text_eq(table, "commit_parents") {
        proof {
            lemma_table_position(1);
        }
        match repo.commits() {
            Ok(v) => {
                let rows = CommitParentsProvider.rows(&v, path);
                proof {
                    assert forall|i: int| 0 <= i < rows@.len() implies booleans_encoded(1, row_view(#[trigger] rows@[i])) by {
                        lemma_no_boolean_columns(1, row_view(rows@[i]));
                    }
                }
                assert(rows_view(rows@) == parent_rows(v@, path@));
                Ok(rows)
            },
            Err(e) => Err(VcsqlError::Git(e)),
        }
    } else if text_eq(table, "branches") {
        proof {
            lemma_table_position(2);
        }
        let head = repo.head();
        match repo.branches() {
            Ok(v) => {
                let rows = BranchesProvider.rows(&head, &v, path);
                proof {
                    assert forall|i: int| 0 <= i < rows@.len() implies booleans_encoded(2, row_view(#[trigger] rows@[i])) by {
                        lemma_branch_booleans(head, v@[i], path@);
                    }
                }
                assert(rows_view(rows@) =~= branch_rows(head, v@, path@));
                Ok(rows)
            },
            Err(e) => Err(VcsqlError::Git(e)),
        }
    } else if text_eq(table, "tags") {
        proof {
            lemma_table_position(3);
        }
        match repo.tags() {
            Ok(v) => {
                let rows = TagsProvider.rows(&v, path);
                proof {
                    assert forall|i: int| 0 <= i < rows@.len() implies booleans_encoded(3, row_view(#[trigger] rows@[i])) by {
                        lemma_tag_booleans(v@[i], path@);
                    }
                }
                assert(rows_view(rows@) =~= tag_rows(v@, path@));
                Ok(rows)
            },
            Err(e) => Err(VcsqlError::Git(e)),
        }
    } else if text_eq(table, "refs") {
        proof {
            lemma_table_position(4);
        }
        match repo.references() {
            Ok(v) => {
                let rows = RefsProvider.rows(&v, path);
                proof {
                    assert forall|i: int| 0 <= i < rows@.len() implies booleans_encoded(4, row_view(#[trigger] rows@[i])) by {
                        lemma_ref_booleans(v@[i], path@);
                    }
                }
                assert(rows_view(rows@) =~= ref_rows(v@, path@));
                Ok(rows)
            },
            Err(e) => Err(VcsqlError::Git(e)),
        }
    } else if text_eq(table, "stashes") {
        proof {
            lemma_table_position(5);
        }
        match repo.stashes() {
            Ok(v) => {
                let rows = StashesProvider.rows(&v, path);
                proof {
                    assert forall|i: int| 0 <= i < rows@.len() implies booleans_encoded(5, row_view(#[trigger] rows@[i])) by {
                        lemma_no_boolean_columns(5, row_view(rows@[i]));
                    }
                }
                assert(rows_view(rows@) =~= stash_rows(v@, path@));
                Ok(rows)
            },
            Err(e) => Err(VcsqlError::Git(e)),
        }
    } else if text_eq(table, "reflog") {
        proof {
            lemma_table_position(6);
        }
        match ReflogProvider.collect(repo, path) {
            Ok(rows) => {
                proof {
                    assert forall|i: int| 0 <= i < rows@.len() implies booleans_encoded(6, row_view(#[trigger] rows@[i])) by {
                        lemma_no_boolean_columns(6, row_view(rows@[i]));
                    }
                }
                Ok(rows)
            },
            Err(e) => Err(e),
        }
    } else if text_eq(table, "diffs") {
        proof {
            lemma_table_position(7);
        }
        match repo.commits() {
            Ok(v) => match DiffsProvider.rows(&v, repo, path) {
                Ok(rows) => {
                    proof {
                    assert forall|i: int| 0 <= i < rows@.len() implies booleans_encoded(7, row_view(#[trigger] rows@[i])) by {
                        lemma_no_boolean_columns(7, row_view(rows@[i]));
                    }
                }
                    Ok(rows)
                },
                Err(e) => Err(e),
            },
            Err(e) => Err(VcsqlError::Git(e)),
        }
    } else if text_eq(table, "diff_files") {
        proof {
            lemma_table_position(8);
        }
        match repo.commits() {
            Ok(v) => match DiffFilesProvider.rows(&v, repo, path) {
                Ok(rows) => {
                    proof {
                        let keys = all_diff_keys(v@);
                        let lists = choose|lists: Seq<Seq<FileDelta>>|
                            lists.len() == keys.len() && rows_view(rows@) == #[trigger] all_delta_rows(keys, lists, path@);
                        assert forall|i: int| 0 <= i < rows@.len() implies booleans_encoded(8, row_view(#[trigger] rows@[i])) by {
                            assert(rows_view(rows@)[i] == row_view(rows@[i]));
                            lemma_delta_rows_booleans(keys, lists, path@, i);
                        }
                    }
                    Ok(rows)
                },
                Err(e) => Err(e),
            },
            Err(e) => Err(VcsqlError::Git(e)),
        }
    } else if text_eq(table, "blame") {
        proof {
            lemma_table_position(9);
        }
        match BlameProvider::new(None).collect(repo, path) {
            Ok(rows) => {
                proof {
                    assert forall|i: int| 0 <= i < rows@.len() implies booleans_encoded(9, row_view(#[trigger] rows@[i])) by {
                        lemma_no_boolean_columns(9, row_view(rows@[i]));
                    }
                }
                Ok(rows)
            },
            Err(e) => Err(e),
        }
    } else if text_eq(table, "config") {
        proof {
            lemma_table_position(10);
        }
        let v = repo.config_entries();
        let rows = ConfigProvider.rows(&v, path);
        proof {
                    assert forall|i: int| 0 <= i < rows@.len() implies booleans_encoded(10, row_view(#[trigger] rows@[i])) by {
                        lemma_no_boolean_columns(10, row_view(rows@[i]));
                    }
                }
        assert(rows_view(rows@) == config_rows(v@, path@));
        Ok(rows)
    } else if text_eq(table, "remotes") {
        proof {
            lemma_table_position(11);
        }
        let v = repo.remotes();
        let rows = RemotesProvider.rows(&v, path);
        proof {
                    assert forall|i: int| 0 <= i < rows@.len() implies booleans_encoded(11, row_view(#[trigger] rows@[i])) by {
                        lemma_no_boolean_columns(11, row_view(rows@[i]));
                    }
                }
        assert(rows_view(rows@) =~= remote_rows(v@, path@));
        Ok(rows)
    } else if text_eq(table, "submodules") {
        proof {
            lemma_table_position(12);
        }
        let v = repo.submodules();
        let rows = SubmodulesProvider.rows(&v, path);
        proof {
                    assert forall|i: int| 0 <= i < rows@.len() implies booleans_encoded(12, row_view(#[trigger] rows@[i])) by {
                        lemma_no_boolean_columns(12, row_view(rows@[i]));
                    }
                }
        assert(rows_view(rows@) =~= submodule_rows(v@, path@));
        Ok(rows)
    } else if text_eq(table, "status") {
        proof {
            lemma_table_position(13);
        }
        let v = repo.statuses();
        let rows = StatusProvider.rows(&v, path);
        proof {
                    assert forall|i: int| 0 <= i < rows@.len() implies booleans_encoded(13, row_view(#[trigger] rows@[i])) by {
                        lemma_status_booleans(v@[i], path@);
                    }
                }
        assert(rows_view(rows@) =~= status_rows(v@, path@));
        Ok(rows)
    } else if text_eq(table, "worktrees") {
        proof {
            lemma_table_position(14);
        }
        let main = repo.main_worktree();
        let linked = repo.linked_worktrees();
        let rows = WorktreesProvider.rows(&main, &linked, path);
        proof {
            assert forall|i: int| 0 <= i < rows@.len() implies booleans_encoded(14, row_view(#[trigger] rows@[i])) by {
                if i == 0 {
                    lemma_main_worktree_booleans(main, path@);
                } else {
                    assert(rows@[(i - 1) + 1] == rows@[i]);
                    lemma_linked_worktree_booleans(linked@[i - 1], path@);
                }
            }
            assert forall|i: int| 0 <= i < rows@.len() implies #[trigger] rows_view(rows@)[i] == worktree_rows(main, linked@, path@)[i] by {
                if i > 0 {
                    assert(rows@[(i - 1) + 1] == rows@[i]);
                }
            }
        }
        assert(rows_view(rows@) =~= worktree_rows(main, linked@, path@));
        Ok(rows)
    } else if text_eq(table, "hooks") {
        proof {
            lemma_table_position(15);
        }
        match repo.hook_files() {
            Ok(v) => {
                let rows = HooksProvider.rows(&v, path);
                proof {
                    assert forall|i: int| 0 <= i < rows@.len() implies booleans_encoded(15, row_view(#[trigger] rows@[i])) by {
                        lemma_hook_rows_booleans(v@, path@, i);
                    }
                }
                assert(rows_view(rows@) == hook_rows(v@, path@));
                Ok(rows)
            },
            Err(e) => Err(VcsqlError::Io(e)),
        }
    } else if text_eq(table, "notes") {
        proof {
            lemma_table_position(16);
        }
        match NotesProvider.collect(repo, path) {
            Ok(rows) => {
                proof {
                    assert forall|i: int| 0 <= i < rows@.len() implies booleans_encoded(16, row_view(#[trigger] rows@[i])) by {
                        lemma_no_boolean_columns(16, row_view(rows@[i]));
                    }
                }
                Ok(rows)
            },
            Err(e) => Err(e),
        }
    } else {
        Err(VcsqlError::TableNotFound(String::from_str(table)))
    }
}

/// Every listed hook file's row encodes its booleans.
proof fn lemma_hook_rows_booleans(fs: Seq<HookFile>, path: Seq<char>, i: int)
    requires
        0 <= i < hook_rows(fs, path).len(),
    ensures
        booleans_encoded(15, hook_rows(fs, path)[i]),
    decreases fs.len(),
{
    if fs.len() > 0 {
        let before = hook_rows(fs.drop_last(), path);
        if hook_listed(fs.last().file_name@) && i == before.len() {
            lemma_hook_booleans(fs.last(), path);
        } else {
            lemma_hook_rows_booleans(fs.drop_last(), path, i);
        }
    }
}

/// Rows handed to the store, each with the table it went to.
pub open spec fn tagged(table: Seq<char>, rows: Seq<Seq<CellView>>) -> Seq<(Seq<char>, Seq<CellView>)> {
    rows.map_values(|r: Seq<CellView>| (table, r))
}

/// The (table, repository) pairs a query asks for, for one repository.
pub open spec fn wanted(query: Seq<char>, path: Seq<char>) -> Set<(Seq<char>, Seq<char>)> {
    referenced_tables(query).map_values(|t: Seq<char>| (t, path)).to_set()
}

/// One session: an in-memory store, the tables loaded into it so far for
/// each repository, and the rows handed to it.
///
/// The loaded pairs are few (at most one per table and repository) and are
/// compared by their characters, so a vector serves as the set.
pub struct SqlEngine {
    conn: rusqlite::Connection,
    loaded_tables: Vec<(String, String)>,
    handed: Ghost<Seq<(Seq<char>, Seq<CellView>)>>,
}

impl SqlEngine {
    /// The (table, repository path) pairs loaded in this session.
    pub closed spec fn loaded(&self) -> Set<(Seq<char>, Seq<char>)> {
        self.loaded_tables@.map_values(|p: (String, String)| (p.0@, p.1@)).to_set()
    }

    /// Every row handed to the store in this session, in order.
    pub closed spec fn handed(&self) -> Seq<(Seq<char>, Seq<CellView>)> {
        self.handed@
    }

    /// A new session over an empty in-memory store.
    pub fn new() -> (r: Result<SqlEngine, VcsqlError>)
        ensures
            match r {
                Ok(e) => e.loaded() == Set::<(Seq<char>, Seq<char>)>::empty() && e.handed() == Seq::<
                    (Seq<char>, Seq<CellView>),
                >::empty(),
                Err(e) => e is Sql,
            },
    {
        match open_store() {
            Ok(conn) => {
                let e = SqlEngine { conn, loaded_tables: Vec::new(), handed: Ghost(Seq::empty()) };
                assert(e.loaded() =~= Set::<(Seq<char>, Seq<char>)>::empty());
                Ok(e)
            },
            Err(e) => Err(VcsqlError::Sql(e)),
        }
    }

    /// The catalog tables a query refers to, in catalog order.
    pub fn extract_table_names(query: &str) -> (r: Vec<String>)
        ensures
            r@.map_values(|s: String| s@) == referenced_tables(query@),
    {
        extract_table_names(query)
    }

    /// Whether a table was loaded in this session from the repository at `path`.
    pub fn is_loaded(&self, name: &str, path: &str) -> (r: bool)
        ensures
            r == self.loaded().contains((name@, path@)),
    {
        let ghost pairs = self.loaded_tables@.map_values(|p: (String, String)| (p.0@, p.1@));
        let mut i: usize = 0;
        while i < self.loaded_tables.len()
            invariant
                pairs == self.loaded_tables@.map_values(|p: (String, String)| (p.0@, p.1@)),
                i <= self.loaded_tables@.len(),
                forall|k: int| 0 <= k < i ==> #[trigger] pairs[k] != (name@, path@),
            decreases self.loaded_tables@.len() - i,
        {
            if text_eq(self.loaded_tables[i].0.as_str(), name) && text_eq(self.loaded_tables[i].1.as_str(), path) {
                assert(pairs[i as int] == (name@, path@));
                return true;
            }
            i = i + 1;
        }
        false
    }

    /// The store, for running queries once their tables are loaded.
    pub fn connection(&self) -> &rusqlite::Connection {
        &self.conn
    }

    /// Hands rows to the store.
    fn insert_rows(&mut self, table: &str, ncols: usize, rows: &Vec<Row>) -> (r: Result<(), VcsqlError>)
        ensures
            final(self).loaded_tables@ == old(self).loaded_tables@,
            r is Ok ==> final(self).handed() == old(self).handed() + tagged(table@, rows_view(rows@)),
            r is Err ==> r->Err_0 is Sql,
    {
        let sql = insert_statement(table, ncols);
        // Tags and notes keep the first of rows with equal keys.
        let keep_first = text_eq(table, "tags") || text_eq(table, "notes");
        let ghost start = self.handed@;
        let mut i: usize = 0;
        while i < rows.len()
            invariant
                i <= rows@.len(),
                self.loaded_tables@ == old(self).loaded_tables@,
                start == old(self).handed(),
                self.handed@ == start + tagged(table@, rows_view(rows@.take(i as int))),
            decreases rows@.len() - i,
        {
            let res = execute(&self.conn, sql.as_str(), &rows[i]);
            proof {
                self.handed@ = self.handed@.push((table@, row_view(rows@[i as int])));
                assert(tagged(table@, rows_view(rows@.take(i as int + 1))) =~= tagged(
                    table@,
                    rows_view(rows@.take(i as int)),
                ).push((table@, row_view(rows@[i as int]))));
            }
            match res {
                Ok(_) => {},
                Err(e) => {
                    if !keep_first {
                        return Err(VcsqlError::Sql(e));
                    }
                },
            }
            i = i + 1;
        }
        assert(rows@.take(rows@.len() as int) =~= rows@);
        Ok(())
    }

    /// Loads one table from the repository at `path`, unless this session
    /// loaded it from that repository already: then nothing is read and
    /// nothing changes. Otherwise the table is created where absent, the
    /// extractor's rows are handed to the store, and the pair counts as
    /// loaded only where that succeeds.
    pub fn load_table_at<R: RepoSource>(&mut self, table_name: &str, repo: &mut R, path: &str) -> (r: Result<
        (),
        VcsqlError,
    >)
        ensures
            old(self).loaded().contains((table_name@, path@)) ==> r is Ok && *final(self) == *old(self)
                && *final(repo) == *old(repo),
            !old(self).loaded().contains((table_name@, path@)) && !table_names().contains(table_name@) ==> r is Err
                && r->Err_0 is TableNotFound && *final(self) == *old(self) && *final(repo) == *old(repo),
            !old(self).loaded().contains((table_name@, path@)) && table_names().contains(table_name@) ==> (r is Ok
                ==> final(self).loaded() == old(self).loaded().insert((table_name@, path@)) && exists|
                rows: Seq<Seq<CellView>>|
                #[trigger] extracted(table_name@, rows, path@) && final(self).handed() == old(self).handed()
                    + tagged(table_name@, rows)) && (r is Err ==> final(self).loaded() == old(self).loaded()
                && !(r->Err_0 is TableNotFound)),
            table_names().contains(table_name@) && never_fails(table_name@) && !old(self).loaded().contains(
                (table_name@, path@),
            ) ==> (r is Err ==> r->Err_0 is Sql),
    {
        if self.is_loaded(table_name, path) {
            return Ok(());
        }
        let info = match get_table_info(table_name) {
            Some(t) => t,
            None => return Err(VcsqlError::TableNotFound(String::from_str(table_name))),
        };
        if let Err(e) = execute(&self.conn, info.create_sql, &Vec::new()) {
            return Err(VcsqlError::Sql(e));
        }
        let rows = match extract_rows(table_name, repo, path) {
            Ok(rows) => rows,
            Err(e) => return Err(e),
        };
        if let Err(e) = self.insert_rows(table_name, info.columns.len(), &rows) {
            return Err(e);
        }
        let ghost before = self.loaded_tables@;
        self.loaded_tables.push((String::from_str(table_name), String::from_str(path)));
        proof {
            let f = |p: (String, String)| (p.0@, p.1@);
            assert(self.loaded_tables@.map_values(f) =~= before.map_values(f).push((table_name@, path@)));
            before.map_values(f).lemma_push_to_set_commute((table_name@, path@));
            assert(self.loaded() =~= old(self).loaded().insert((table_name@, path@)));
            let rv = rows_view(rows@);
            assert(extracted(table_name@, rv, path@));
        }
        Ok(())
    }

    /// Loads one table from the repository, keyed by the path the
    /// repository reports; see `load_table_at`.
    pub fn load_table<R: RepoSource>(&mut self, table_name: &str, repo: &mut R) -> (r: Result<(), VcsqlError>)
        ensures
            !table_names().contains(table_name@) ==> (r is Err ==> r->Err_0 is TableNotFound) && final(self).loaded()
                == old(self).loaded() && final(self).handed() == old(self).handed(),
            r is Ok ==> exists|p: Seq<char>| #[trigger] final(self).loaded() == old(self).loaded().insert((table_name@, p)),
            r is Err ==> final(self).loaded() == old(self).loaded(),
    {
        let path = repo.repo_path();
        let r = self.load_table_at(table_name, repo, path.as_str());
        proof {
            if r is Ok && old(self).loaded().contains((table_name@, path@)) {
                assert(old(self).loaded().insert((table_name@, path@)) =~= old(self).loaded());
            }
        }
        r
    }

    /// Loads, for the repository at `path`, every catalog table the query
    /// refers to, in catalog order, stopping at the first failure.
    pub fn load_tables_for_query_at<R: RepoSource>(&mut self, query: &str, repo: &mut R, path: &str) -> (r: Result<
        (),
        VcsqlError,
    >)
        ensures
            wanted(query@, path@).subset_of(old(self).loaded()) ==> r is Ok && *final(self) == *old(self)
                && *final(repo) == *old(repo),
            r is Ok ==> final(self).loaded() == old(self).loaded() + wanted(query@, path@),
            old(self).loaded().subset_of(final(self).loaded()),
            final(self).loaded().subset_of(old(self).loaded() + wanted(query@, path@)),
            r is Err ==> !(r->Err_0 is TableNotFound) && exists|t: Seq<char>|
                #[trigger] wanted(query@, path@).contains((t, path@)) && !final(self).loaded().contains((t, path@)),
    {
        let tables = extract_table_names(query);
        let ghost refs = referenced_tables(query@);
        let ghost f = |t: Seq<char>| (t, path@);
        let mut i: usize = 0;
        while i < tables.len()
            invariant
                i <= tables@.len(),
                tables@.map_values(|s: String| s@) == refs,
                refs == referenced_tables(query@),
                f == (|t: Seq<char>| (t, path@)),
                self.loaded() == old(self).loaded() + refs.take(i as int).map_values(f).to_set(),
                wanted(query@, path@).subset_of(old(self).loaded()) ==> *self == *old(self) && *repo == *old(repo),
            decreases tables@.len() - i,
        {
            let name = tables[i].as_str();
            assert(refs[i as int] == name@);
            proof {
                lemma_names_in_catalog(query@, i as int);
                assert(refs.map_values(f)[i as int] == (name@, path@));
                assert(wanted(query@, path@).contains((name@, path@)));
            }
            let res = self.load_table_at(name, repo, path);
            proof {
                assert(refs.take(i as int + 1).map_values(f) =~= refs.take(i as int).map_values(f).push((name@, path@)));
                refs.take(i as int).map_values(f).lemma_push_to_set_commute((name@, path@));
                assert forall|x| #[trigger] refs.take(i as int).map_values(f).to_set().contains(x) implies wanted(
                    query@,
                    path@,
                ).contains(x) by {
                    let k = choose|k: int| 0 <= k < refs.take(i as int).map_values(f).len() && refs.take(
                        i as int,
                    ).map_values(f)[k] == x;
                    assert(refs.map_values(f)[k] == x);
                }
            }
            if let Err(e) = res {
                proof {
                    if self.loaded().contains((name@, path@)) {
                        assert(old(self).loaded().contains((name@, path@)) || refs.take(i as int).map_values(
                            f,
                        ).to_set().contains((name@, path@)));
                    }
                }
                return Err(e);
            }
            assert(self.loaded() =~= old(self).loaded() + refs.take(i as int + 1).map_values(f).to_set());
            i = i + 1;
        }
        assert(refs.take(tables@.len() as int) =~= refs);
        assert(refs.map_values(f).to_set() =~= wanted(query@, path@));
        Ok(())
    }

    /// Loads every catalog table the query refers to from the repository,
    /// keyed by the path the repository reports; see `load_tables_for_query_at`.
    pub fn load_tables_for_query<R: RepoSource>(&mut self, query: &str, repo: &mut R) -> (r: Result<(), VcsqlError>)
        ensures
            old(self).loaded().subset_of(final(self).loaded()),
            exists|p: Seq<char>|
                #[trigger] final(self).loaded().subset_of(old(self).loaded() + wanted(query@, p)) && (r is Ok
                    ==> final(self).loaded() == old(self).loaded() + wanted(query@, p)),
    {
        let path = repo.repo_path();
        self.load_tables_for_query_at(query, repo, path.as_str())
    }
}

/// Every referenced table is in the catalog.
proof fn lemma_names_in_catalog(q: Seq<char>, i: int)
    requires
        0 <= i < referenced_tables(q).len(),
    ensures
        table_names().contains(referenced_tables(q)[i]),
{
    let r = referenced_tables(q);
    assert(r.contains(r[i]));
    table_names().lemma_filter_contains_rev(|w: Seq<char>| crate::query::word_in(q, w), r[i]);
}

} // verus!
