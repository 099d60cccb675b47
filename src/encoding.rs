//! How rows encode booleans, against the types the catalog declares.
use vstd::prelude::*;
use crate::providers::branches::branch_row;
use crate::providers::commits::commit_row;
use crate::providers::diff_files::delta_row;
use crate::providers::hooks::hook_row;
use crate::providers::refs::ref_row;
use crate::providers::status::status_row;
use crate::providers::tags::tag_row;
use crate::providers::worktrees::{linked_row, main_row};
use crate::records::{
    BranchRecord, CommitRecord, FileDelta, HeadInfo, HookFile, LinkedWorktree, MainWorktree, RefRecord,
    StatusEntry, TagRecord,
};
use crate::rows::{CellView, is_flag};
use crate::schema::catalog;

verus! {

/// Every column that catalog table `t` declares boolean holds 0 or 1 in `row`.
pub open spec fn booleans_encoded(t: int, row: Seq<CellView>) -> bool {
    forall|j: int| 0 <= j < row.len() && j < catalog()[t].2.len() && (#[trigger] catalog()[t].2[j]).1 == "BOOLEAN"@
        ==> is_flag(row[j])
}

proof fn lemma_not_boolean(ty: Seq<char>)
    requires
        ty == "TEXT"@ || ty == "INTEGER"@ || ty == "DATETIME"@,
    ensures
        ty != "BOOLEAN"@,
{
    reveal_strlit("BOOLEAN");
    reveal_strlit("TEXT");
    reveal_strlit("INTEGER");
    reveal_strlit("DATETIME");
    assert("BOOLEAN"@.len() == 7 && "BOOLEAN"@[0] == 'B');
    assert("TEXT"@.len() == 4);
    assert("DATETIME"@.len() == 8);
    assert("INTEGER"@[0] == 'I');
}

/// A commit row holds 0 or 1 in its merge flag.
pub proof fn lemma_commit_booleans(c: CommitRecord, repo: Seq<char>)
    ensures
        booleans_encoded(0, commit_row(c, repo)),
{
    reveal(catalog);
    let row = commit_row(c, repo);
    let cols = catalog()[0].2;
    assert(cols == crate::schema::spec_commits().2);
    assert forall|j: int| 0 <= j < row.len() && j < cols.len() && (#[trigger] catalog()[0].2[j]).1 == "BOOLEAN"@ implies is_flag(row[j]) by {
        if !(j == 13) {
            lemma_not_boolean(cols[j].1);
        }
    }
}

/// A branch row holds 0 or 1 in its remote and head flags.
pub proof fn lemma_branch_booleans(h: HeadInfo, b: BranchRecord, repo: Seq<char>)
    ensures
        booleans_encoded(2, branch_row(h, b, repo)),
{
    reveal(catalog);
    let row = branch_row(h, b, repo);
    let cols = catalog()[2].2;
    assert(cols == crate::schema::spec_branches().2);
    assert forall|j: int| 0 <= j < row.len() && j < cols.len() && (#[trigger] catalog()[2].2[j]).1 == "BOOLEAN"@ implies is_flag(row[j]) by {
        if !(j == 3 || j == 4) {
            lemma_not_boolean(cols[j].1);
        }
    }
}

/// A tag row holds 0 or 1 in its annotated flag.
pub proof fn lemma_tag_booleans(t: TagRecord, repo: Seq<char>)
    ensures
        booleans_encoded(3, tag_row(t, repo)),
{
    reveal(catalog);
    let row = tag_row(t, repo);
    let cols = catalog()[3].2;
    assert(cols == crate::schema::spec_tags().2);
    assert forall|j: int| 0 <= j < row.len() && j < cols.len() && (#[trigger] catalog()[3].2[j]).1 == "BOOLEAN"@ implies is_flag(row[j]) by {
        if !(j == 4) {
            lemma_not_boolean(cols[j].1);
        }
    }
}

/// A reference row holds 0 or 1 in its symbolic flag.
pub proof fn lemma_ref_booleans(r: RefRecord, repo: Seq<char>)
    ensures
        booleans_encoded(4, ref_row(r, repo)),
{
    reveal(catalog);
    let row = ref_row(r, repo);
    let cols = catalog()[4].2;
    assert(cols == crate::schema::spec_refs().2);
    assert forall|j: int| 0 <= j < row.len() && j < cols.len() && (#[trigger] catalog()[4].2[j]).1 == "BOOLEAN"@ implies is_flag(row[j]) by {
        if !(j == 4) {
            lemma_not_boolean(cols[j].1);
        }
    }
}

/// A file diff row holds 0 or 1 in its binary flag.
pub proof fn lemma_delta_booleans(commit: Seq<char>, parent: Option<Seq<char>>, d: FileDelta, repo: Seq<char>)
    ensures
        booleans_encoded(8, delta_row(commit, parent, d, repo)),
{
    reveal(catalog);
    let row = delta_row(commit, parent, d, repo);
    let cols = catalog()[8].2;
    assert(cols == crate::schema::spec_diff_files().2);
    assert forall|j: int| 0 <= j < row.len() && j < cols.len() && (#[trigger] catalog()[8].2[j]).1 == "BOOLEAN"@ implies is_flag(row[j]) by {
        if !(j == 7) {
            lemma_not_boolean(cols[j].1);
        }
    }
}

/// A status row holds 0 or 1 in each of its eight flags.
pub proof fn lemma_status_booleans(s: StatusEntry, repo: Seq<char>)
    ensures
        booleans_encoded(13, status_row(s, repo)),
{
    reveal(catalog);
    let row = status_row(s, repo);
    let cols = catalog()[13].2;
    assert(cols == crate::schema::spec_status().2);
    assert forall|j: int| 0 <= j < row.len() && j < cols.len() && (#[trigger] catalog()[13].2[j]).1 == "BOOLEAN"@ implies is_flag(row[j]) by {
        if !(j == 4 || j == 5 || j == 6 || j == 7 || j == 8 || j == 9 || j == 10 || j == 11) {
            lemma_not_boolean(cols[j].1);
        }
    }
}

/// The main worktree row holds 0 or 1 in its flags.
pub proof fn lemma_main_worktree_booleans(m: MainWorktree, repo: Seq<char>)
    ensures
        booleans_encoded(14, main_row(m, repo)),
{
    reveal(catalog);
    let row = main_row(m, repo);
    let cols = catalog()[14].2;
    assert(cols == crate::schema::spec_worktrees().2);
    assert forall|j: int| 0 <= j < row.len() && j < cols.len() && (#[trigger] catalog()[14].2[j]).1 == "BOOLEAN"@ implies is_flag(row[j]) by {
        if !(j == 4 || j == 5 || j == 6 || j == 8) {
            lemma_not_boolean(cols[j].1);
        }
    }
}

/// A linked worktree row holds 0 or 1 in its flags.
pub proof fn lemma_linked_worktree_booleans(w: LinkedWorktree, repo: Seq<char>)
    ensures
        booleans_encoded(14, linked_row(w, repo)),
{
    reveal(catalog);
    let row = linked_row(w, repo);
    let cols = catalog()[14].2;
    assert(cols == crate::schema::spec_worktrees().2);
    assert forall|j: int| 0 <= j < row.len() && j < cols.len() && (#[trigger] catalog()[14].2[j]).1 == "BOOLEAN"@ implies is_flag(row[j]) by {
        if !(j == 4 || j == 5 || j == 6 || j == 8) {
            lemma_not_boolean(cols[j].1);
        }
    }
}

/// A hook row holds 0 or 1 in its executable and sample flags.
pub proof fn lemma_hook_booleans(k: HookFile, repo: Seq<char>)
    ensures
        booleans_encoded(15, hook_row(k, repo)),
{
    reveal(catalog);
    let row = hook_row(k, repo);
    let cols = catalog()[15].2;
    assert(cols == crate::schema::spec_hooks().2);
    assert forall|j: int| 0 <= j < row.len() && j < cols.len() && (#[trigger] catalog()[15].2[j]).1 == "BOOLEAN"@ implies is_flag(row[j]) by {
        if !(j == 2 || j == 3) {
            lemma_not_boolean(cols[j].1);
        }
    }
}

/// Tables without boolean columns: commit parents, stashes, reflog, diffs,
/// blame, config, remotes, submodules and notes.
pub proof fn lemma_no_boolean_columns(t: int, row: Seq<CellView>)
    requires
        t == 1 || t == 5 || t == 6 || t == 7 || t == 9 || t == 10 || t == 11 || t == 12 || t == 16,
    ensures
        booleans_encoded(t, row),
{
    reveal(catalog);
    let cols = catalog()[t].2;
    if t == 1 {
        assert(cols == crate::schema::spec_commit_parents().2);
    }
    if t == 5 {
        assert(cols == crate::schema::spec_stashes().2);
    }
    if t == 6 {
        assert(cols == crate::schema::spec_reflog().2);
    }
    if t == 7 {
        assert(cols == crate::schema::spec_diffs().2);
    }
    if t == 9 {
        assert(cols == crate::schema::spec_blame().2);
    }
    if t == 10 {
        assert(cols == crate::schema::spec_config().2);
    }
    if t == 11 {
        assert(cols == crate::schema::spec_remotes().2);
    }
    if t == 12 {
        assert(cols == crate::schema::spec_submodules().2);
    }
    if t == 16 {
        assert(cols == crate::schema::spec_notes().2);
    }
    assert forall|j: int| 0 <= j < row.len() && j < cols.len() && (#[trigger] catalog()[t].2[j]).1 == "BOOLEAN"@ implies is_flag(row[j]) by {
        lemma_not_boolean(cols[j].1);
    }
}

} // verus!
