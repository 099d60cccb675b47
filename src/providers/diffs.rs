//! The `diffs` table: one summary row per commit and parent.
use vstd::prelude::*;
use crate::error::VcsqlError;
use crate::records::{CommitRecord, DiffStats};
use crate::rows::{Cell, CellView, Row, opt_text_view, row_view, rows_view, text};
use crate::source::RepoSource;

verus! {

/// The (commit, parent) pairs a commit is diffed for: against each parent in
/// order, or once against the empty tree where it has none.
pub open spec fn diff_keys(c: CommitRecord) -> Seq<(Seq<char>, Option<Seq<char>>)> {
    if c.parent_ids@.len() == 0 {
        seq![(c.id@, None)]
    } else {
        Seq::new(c.parent_ids@.len(), |j: int| (c.id@, Some(c.parent_ids@[j]@)))
    }
}

/// The diff pairs of all commits, commit by commit.
pub open spec fn all_diff_keys(cs: Seq<CommitRecord>) -> Seq<(Seq<char>, Option<Seq<char>>)>
    decreases cs.len(),
{
    if cs.len() == 0 {
        Seq::empty()
    } else {
        all_diff_keys(cs.drop_last()) + diff_keys(cs.last())
    }
}

/// A commit with N parents is diffed N times, once per parent in order; a
/// root commit once, with no parent.
pub proof fn lemma_diff_fan_out(c: CommitRecord)
    ensures
        c.parent_ids@.len() >= 1 ==> diff_keys(c).len() == c.parent_ids@.len() && forall|j: int|
            0 <= j < c.parent_ids@.len() ==> (#[trigger] diff_keys(c)[j]) == (c.id@, Some(c.parent_ids@[j]@)),
        c.parent_ids@.len() == 0 ==> diff_keys(c) == seq![(c.id@, None::<Seq<char>>)],
{
}

pub open spec fn diff_row(k: (Seq<char>, Option<Seq<char>>), s: DiffStats, repo: Seq<char>) -> Seq<CellView> {
    seq![
        CellView::Text(k.0),
        opt_text_view(k.1),
        CellView::Integer(s.files_changed as int),
        CellView::Integer(s.insertions as int),
        CellView::Integer(s.deletions as int),
        CellView::Text(repo),
    ]
}

/// Appending histories appends their diff pairs.
proof fn lemma_diff_keys_append(a: Seq<CommitRecord>, b: Seq<CommitRecord>)
    ensures
        all_diff_keys(a + b) == all_diff_keys(a) + all_diff_keys(b),
    decreases b.len(),
{
    if b.len() == 0 {
        assert(a + b =~= a);
        assert(all_diff_keys(a) + all_diff_keys(b) =~= all_diff_keys(a));
    } else {
        lemma_diff_keys_append(a, b.drop_last());
        assert((a + b).drop_last() =~= a + b.drop_last());
        assert((a + b).last() == b.last());
    }
}

/// Within any history, the commit at position `i` contributes its own diff
/// pairs, one per parent in order (or one for a root commit), between the
/// pairs of the commits before it and those after it.
pub proof fn lemma_diff_keys_at(cs: Seq<CommitRecord>, i: int)
    requires
        0 <= i < cs.len(),
    ensures
        all_diff_keys(cs) == all_diff_keys(cs.take(i)) + diff_keys(cs[i]) + all_diff_keys(cs.skip(i + 1)),
{
    assert(cs =~= cs.take(i) + (seq![cs[i]] + cs.skip(i + 1)));
    lemma_diff_keys_append(cs.take(i), seq![cs[i]] + cs.skip(i + 1));
    lemma_diff_keys_append(seq![cs[i]], cs.skip(i + 1));
    let one = seq![cs[i]];
    assert(one.drop_last() =~= Seq::<CommitRecord>::empty());
    assert(one.last() == cs[i]);
    assert(all_diff_keys(Seq::<CommitRecord>::empty()) =~= Seq::empty());
    assert(all_diff_keys(one) =~= diff_keys(cs[i]));
}

/// One row per diff pair, with the statistics that came back for it.
pub open spec fn diff_rows(keys: Seq<(Seq<char>, Option<Seq<char>>)>, stats: Seq<DiffStats>, repo: Seq<char>) -> Seq<
    Seq<CellView>,
> {
    Seq::new(keys.len(), |i: int| diff_row(keys[i], stats[i], repo))
}

/// Extracts the `diffs` table.
pub struct DiffsProvider;

impl DiffsProvider {
    pub fn table_name(&self) -> (r: &'static str)
        ensures
            r@ == "diffs"@,
    {
        "diffs"
    }

    /// The row of one diff.
    pub fn row(&self, commit_id: &str, parent_id: Option<&str>, s: DiffStats, repo: &str) -> (r: Row)
        ensures
            row_view(r) == diff_row(
                (commit_id@, match parent_id { Some(p) => Some(p@), None => None }),
                s,
                repo@,
            ),
    {
        let parent = match parent_id {
            Some(p) => text(p),
            None => Cell::Null,
        };
        let row: Row = vec![
            text(commit_id),
            parent,
            Cell::Integer(s.files_changed as i64),
            Cell::Integer(s.insertions as i64),
            Cell::Integer(s.deletions as i64),
            text(repo),
        ];
        assert(row_view(row) =~= diff_row(
            (commit_id@, match parent_id { Some(p) => Some(p@), None => None }),
            s,
            repo@,
        ));
        row
    }

    /// One row per commit and parent, or one with no parent for a root
    /// commit; statistics as the repository computes them. A diff that
    /// cannot be computed fails the extraction.
    pub fn rows<R: RepoSource>(&self, commits: &Vec<CommitRecord>, repo: &mut R, path: &str) -> (r: Result<
        Vec<Row>,
        VcsqlError,
    >)
        ensures
            commits@.len() == 0 ==> r is Ok,
            match r {
                Ok(rows) => exists|stats: Seq<DiffStats>|
                    stats.len() == all_diff_keys(commits@).len() && rows_view(rows@) == #[trigger] diff_rows(
                        all_diff_keys(commits@),
                        stats,
                        path@,
                    ),
                Err(e) => e is Git,
            },
    {
        let mut out: Vec<Row> = Vec::new();
        let ghost mut stats: Seq<DiffStats> = Seq::empty();
        let mut i: usize = 0;
        assert(rows_view(out@) =~= diff_rows(all_diff_keys(commits@.take(0)), stats, path@));
        while i < commits.len()
            invariant
                i <= commits@.len(),
                stats.len() == all_diff_keys(commits@.take(i as int)).len(),
                rows_view(out@) == diff_rows(all_diff_keys(commits@.take(i as int)), stats, path@),
            decreases commits@.len() - i,
        {
            let c = &commits[i];
            let ghost keys = diff_keys(*c);
            let ghost done = all_diff_keys(commits@.take(i as int));
            assert(commits@.take(i as int + 1).drop_last() =~= commits@.take(i as int));
            assert(all_diff_keys(commits@.take(i as int + 1)) == done + keys);
            let id = c.id.as_str();
            let n = c.parent_ids.len();
            let count = if n == 0 { 1 } else { n };
            let mut j: usize = 0;
            while j < count
                invariant
                    j <= count,
                    i < commits@.len(),
                    count == keys.len(),
                    n == c.parent_ids@.len(),
                    count == if n == 0 { 1 } else { n },
                    id@ == c.id@,
                    keys == diff_keys(*c),
                    stats.len() == done.len() + j,
                    rows_view(out@) == diff_rows(done + keys.take(j as int), stats, path@),
                decreases count - j,
            {
                let parent = if n == 0 { None } else { Some(c.parent_ids[j].as_str()) };
                let s = match repo.diff_stats(id, parent) {
                    Ok(s) => s,
                    Err(e) => return Err(VcsqlError::Git(e)),
                };
                let row = self.row(id, parent, s, path);
                let ghost prev = out@;
                out.push(row);
                proof {
                    assert(keys[j as int] == (id@, match parent { Some(p) => Some(p@), None => None }));
                    let nk = done + keys.take(j as int + 1);
                    assert(nk =~= (done + keys.take(j as int)).push(keys[j as int]));
                    assert(rows_view(out@) =~= rows_view(prev).push(row_view(row)));
                    let ostats = stats;
                    stats = stats.push(s);
                    assert forall|k: int| 0 <= k < nk.len() implies #[trigger] diff_rows(nk, stats, path@)[k] == rows_view(out@)[k] by {
                        if k < nk.len() - 1 {
                            assert(nk[k] == (done + keys.take(j as int))[k]);
                            assert(stats[k] == ostats[k]);
                            assert(rows_view(out@)[k] == rows_view(prev)[k]);
                            assert(rows_view(prev)[k] == diff_rows(done + keys.take(j as int), ostats, path@)[k]);
                        }
                    }
                    assert(rows_view(out@) =~= diff_rows(nk, stats, path@));
                }
                j = j + 1;
            }
            assert(keys.take(count as int) =~= keys);
            i = i + 1;
        }
        assert(commits@.take(commits@.len() as int) =~= commits@);
        Ok(out)
    }
}

} // verus!
