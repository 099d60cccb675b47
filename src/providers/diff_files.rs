//! The `diff_files` table: one row per changed file of each diff.
use vstd::prelude::*;
use crate::error::VcsqlError;
use crate::providers::diffs::{all_diff_keys, diff_keys};
use crate::records::{CommitRecord, DeltaKind, FileDelta};
use crate::rows::{Cell, CellView, Row, flag, flag_view, opt_text, opt_text_view, opt_view, row_view, rows_view, text};
use crate::source::RepoSource;

verus! {

/// The one-letter status of a file change.
pub open spec fn status_text(k: DeltaKind) -> Seq<char> {
    match k {
        DeltaKind::Added => "A"@,
        DeltaKind::Deleted => "D"@,
        DeltaKind::Modified => "M"@,
        DeltaKind::Renamed => "R"@,
        DeltaKind::Copied => "C"@,
        DeltaKind::Typechange => "T"@,
        DeltaKind::Unmodified => "U"@,
        DeltaKind::Ignored => "I"@,
        DeltaKind::Untracked => "?"@,
        DeltaKind::Conflicted => "X"@,
        DeltaKind::Unreadable => "!"@,
    }
}

/// The one-letter status of a file change.
pub fn status_letter(k: DeltaKind) -> (r: &'static str)
    ensures
        r@ == status_text(k),
{
    match k {
        DeltaKind::Added => "A",
        DeltaKind::Deleted => "D",
        DeltaKind::Modified => "M",
        DeltaKind::Renamed => "R",
        DeltaKind::Copied => "C",
        DeltaKind::Typechange => "T",
        DeltaKind::Unmodified => "U",
        DeltaKind::Ignored => "I",
        DeltaKind::Untracked => "?",
        DeltaKind::Conflicted => "X",
        DeltaKind::Unreadable => "!",
    }
}

pub open spec fn delta_row(commit: Seq<char>, parent: Option<Seq<char>>, d: FileDelta, repo: Seq<char>) -> Seq<CellView> {
    seq![
        CellView::Text(commit),
        opt_text_view(parent),
        opt_text_view(opt_view(d.old_path)),
        opt_text_view(opt_view(d.new_path)),
        CellView::Text(status_text(d.kind)),
        CellView::Integer(d.insertions as int),
        CellView::Integer(d.deletions as int),
        flag_view(d.old_is_binary || d.new_is_binary),
        CellView::Null,
        CellView::Text(repo),
    ]
}

/// One row per file change of the diff `k`, in the order they came.
pub open spec fn deltas_of(k: (Seq<char>, Option<Seq<char>>), ds: Seq<FileDelta>, repo: Seq<char>) -> Seq<Seq<CellView>> {
    Seq::new(ds.len(), |j: int| delta_row(k.0, k.1, ds[j], repo))
}

/// The rows of every diff of `keys` in order, with the file changes that
/// came back for each.
pub open spec fn all_delta_rows(
    keys: Seq<(Seq<char>, Option<Seq<char>>)>,
    lists: Seq<Seq<FileDelta>>,
    repo: Seq<char>,
) -> Seq<Seq<CellView>>
    decreases keys.len(),
{
    if keys.len() == 0 || lists.len() != keys.len() {
        Seq::empty()
    } else {
        all_delta_rows(keys.drop_last(), lists.drop_last(), repo) + deltas_of(keys.last(), lists.last(), repo)
    }
}

/// Extracts the `diff_files` table.
pub struct DiffFilesProvider;

impl DiffFilesProvider {
    pub fn table_name(&self) -> (r: &'static str)
        ensures
            r@ == "diff_files"@,
    {
        "diff_files"
    }

    /// The row of one changed file.
    pub fn row(&self, commit_id: &str, parent_id: Option<&str>, d: &FileDelta, repo: &str) -> (r: Row)
        ensures
            row_view(r) == delta_row(
                commit_id@,
                match parent_id { Some(p) => Some(p@), None => None },
                *d,
                repo@,
            ),
    {
        let parent = match parent_id {
            Some(p) => text(p),
            None => Cell::Null,
        };
        let row: Row = vec![
            text(commit_id),
            parent,
            opt_text(&d.old_path),
            opt_text(&d.new_path),
            text(status_letter(d.kind)),
            Cell::Integer(d.insertions as i64),
            Cell::Integer(d.deletions as i64),
            flag(d.old_is_binary || d.new_is_binary),
            Cell::Null,
            text(repo),
        ];
        assert(row_view(row) =~= delta_row(
            commit_id@,
            match parent_id { Some(p) => Some(p@), None => None },
            *d,
            repo@,
        ));
        row
    }

    /// Appends one row per file change of one diff, in the order they come.
    fn push_diff<R: RepoSource>(
        &self,
        out: &mut Vec<Row>,
        repo: &mut R,
        commit_id: &str,
        parent_id: Option<&str>,
        path: &str,
    ) -> (r: Result<Ghost<Seq<FileDelta>>, VcsqlError>)
        ensures
            match r {
                Ok(ds) => rows_view(final(out)@) == rows_view(old(out)@) + deltas_of(
                    (commit_id@, match parent_id { Some(p) => Some(p@), None => None }),
                    ds@,
                    path@,
                ),
                Err(e) => e is Git,
            },
    {
        let deltas = match repo.diff_files(commit_id, parent_id) {
            Ok(v) => v,
            Err(e) => return Err(VcsqlError::Git(e)),
        };
        let ghost key = (commit_id@, match parent_id { Some(p) => Some(p@), None => None });
        let ghost start = rows_view(out@);
        let mut i: usize = 0;
        while i < deltas.len()
            invariant
                key == (commit_id@, match parent_id { Some(p) => Some(p@), None => None }),
                i <= deltas@.len(),
                rows_view(out@) == start + deltas_of(key, deltas@.take(i as int), path@),
            decreases deltas@.len() - i,
        {
            let row = self.row(commit_id, parent_id, &deltas[i], path);
            let ghost prev = out@;
            out.push(row);
            proof {
                assert(rows_view(out@) =~= rows_view(prev).push(row_view(row)));
                assert(deltas_of(key, deltas@.take(i as int + 1), path@) =~= deltas_of(
                    key,
                    deltas@.take(i as int),
                    path@,
                ).push(row_view(row)));
                assert(rows_view(out@) =~= start + deltas_of(key, deltas@.take(i as int + 1), path@));
            }
            i = i + 1;
        }
        assert(deltas@.take(deltas@.len() as int) =~= deltas@);
        Ok(Ghost(deltas@))
    }

    /// One row per file change of each diff: against each parent of a
    /// commit, or against the empty tree for a root commit. A diff that
    /// cannot be computed fails the extraction.
    pub fn rows<R: RepoSource>(&self, commits: &Vec<CommitRecord>, repo: &mut R, path: &str) -> (r: Result<
        Vec<Row>,
        VcsqlError,
    >)
        ensures
            commits@.len() == 0 ==> r is Ok,
            match r {
                Ok(rows) => exists|lists: Seq<Seq<FileDelta>>|
                    lists.len() == all_diff_keys(commits@).len() && rows_view(rows@) == #[trigger] all_delta_rows(
                        all_diff_keys(commits@),
                        lists,
                        path@,
                    ),
                Err(e) => e is Git,
            },
    {
        let mut out: Vec<Row> = Vec::new();
        let ghost mut lists: Seq<Seq<FileDelta>> = Seq::empty();
        let mut i: usize = 0;
        assert(rows_view(out@) =~= all_delta_rows(all_diff_keys(commits@.take(0)), lists, path@));
        while i < commits.len()
            invariant
                i <= commits@.len(),
                lists.len() == all_diff_keys(commits@.take(i as int)).len(),
                rows_view(out@) == all_delta_rows(all_diff_keys(commits@.take(i as int)), lists, path@),
            decreases commits@.len() - i,
        {
            let c = &commits[i];
            let ghost keys = diff_keys(*c);
            let ghost done = all_diff_keys(commits@.take(i as int));
            assert(commits@.take(i as int + 1).drop_last() =~= commits@.take(i as int));
            assert(all_diff_keys(commits@.take(i as int + 1)) == done + keys);
            let id = c.id.as_str();
            let n = c.parent_ids.len();
            let count = if n == 0 { 1 } else { n };
            let mut j: usize = 0;
            while j < count
                invariant
                    j <= count,
                    i < commits@.len(),
                    count == keys.len(),
                    n == c.parent_ids@.len(),
                    count == if n == 0 { 1 } else { n },
                    id@ == c.id@,
                    keys == diff_keys(*c),
                    lists.len() == done.len() + j,
                    rows_view(out@) == all_delta_rows(done + keys.take(j as int), lists, path@),
                decreases count - j,
            {
                let parent = if n == 0 { None } else { Some(c.parent_ids[j].as_str()) };
                let ghost prev = out@;
                let got = self.push_diff(&mut out, repo, id, parent, path);
                let ds = match got {
                    Ok(ds) => ds,
                    Err(e) => return Err(e),
                };
                proof {
                    assert(keys[j as int] == (id@, match parent { Some(p) => Some(p@), None => None }));
                    let ok = done + keys.take(j as int);
                    let nk = done + keys.take(j as int + 1);
                    assert(nk =~= ok.push(keys[j as int]));
                    assert(nk.drop_last() =~= ok);
                    assert(lists.push(ds@).drop_last() =~= lists);
                    lists = lists.push(ds@);
                }
                j = j + 1;
            }
            assert(keys.take(count as int) =~= keys);
            i = i + 1;
        }
        assert(commits@.take(commits@.len() as int) =~= commits@);
        Ok(out)
    }
}

} // verus!
