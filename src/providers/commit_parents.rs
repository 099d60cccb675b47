//! The `commit_parents` table.
use vstd::prelude::*;
use crate::records::CommitRecord;
use crate::rows::{CellView, Row, count_cell, count_view, row_view, rows_view, text};

verus! {

/// One row per parent edge of a commit, with the parent's position.
pub open spec fn parent_edges(c: CommitRecord, repo: Seq<char>) -> Seq<Seq<CellView>> {
    Seq::new(
        c.parent_ids@.len(),
        |j: int| seq![
            CellView::Text(c.id@),
            CellView::Text(c.parent_ids@[j]@),
            count_view(j as nat),
            CellView::Text(repo),
        ],
    )
}

/// The parent edges of all commits, commit by commit.
pub open spec fn parent_rows(cs: Seq<CommitRecord>, repo: Seq<char>) -> Seq<Seq<CellView>>
    decreases cs.len(),
{
    if cs.len() == 0 {
        Seq::empty()
    } else {
        parent_rows(cs.drop_last(), repo) + parent_edges(cs.last(), repo)
    }
}

/// A merge commit with two parents has edges at positions 0 and 1, in the
/// order the repository records its parents.
pub proof fn lemma_merge_parent_order(c: CommitRecord, repo: Seq<char>)
    requires
        c.parent_ids@.len() == 2,
    ensures
        parent_edges(c, repo).len() == 2,
        parent_edges(c, repo)[0][1] == CellView::Text(c.parent_ids@[0]@),
        parent_edges(c, repo)[0][2] == CellView::Integer(0),
        parent_edges(c, repo)[1][1] == CellView::Text(c.parent_ids@[1]@),
        parent_edges(c, repo)[1][2] == CellView::Integer(1),
{
}

proof fn lemma_parent_rows_append(a: Seq<CommitRecord>, b: Seq<CommitRecord>, repo: Seq<char>)
    ensures
        parent_rows(a + b, repo) == parent_rows(a, repo) + parent_rows(b, repo),
    decreases b.len(),
{
    if b.len() == 0 {
        assert(a + b =~= a);
        assert(parent_rows(a, repo) + parent_rows(b, repo) =~= parent_rows(a, repo));
    } else {
        lemma_parent_rows_append(a, b.drop_last(), repo);
        assert((a + b).drop_last() =~= a + b.drop_last());
        assert((a + b).last() == b.last());
    }
}

/// Within any history, the commit at position `i` contributes exactly its
/// own parent edges, in declared order, between the edges of the commits
/// before it and those after it.
pub proof fn lemma_parent_rows_at(cs: Seq<CommitRecord>, i: int, repo: Seq<char>)
    requires
        0 <= i < cs.len(),
    ensures
        parent_rows(cs, repo) == parent_rows(cs.take(i), repo) + parent_edges(cs[i], repo) + parent_rows(
            cs.skip(i + 1),
            repo,
        ),
{
    assert(cs =~= cs.take(i) + (seq![cs[i]] + cs.skip(i + 1)));
    lemma_parent_rows_append(cs.take(i), seq![cs[i]] + cs.skip(i + 1), repo);
    lemma_parent_rows_append(seq![cs[i]], cs.skip(i + 1), repo);
    let one = seq![cs[i]];
    assert(one.drop_last() =~= Seq::<CommitRecord>::empty());
    assert(one.last() == cs[i]);
    assert(parent_rows(Seq::<CommitRecord>::empty(), repo) =~= Seq::empty());
    assert(parent_rows(one, repo) =~= parent_edges(cs[i], repo));
}

/// Extracts the `commit_parents` table.
pub struct CommitParentsProvider;

impl CommitParentsProvider {
    pub fn table_name(&self) -> (r: &'static str)
        ensures
            r@ == "commit_parents"@,
    {
        "commit_parents"
    }

    /// One row per parent edge of every commit, commits in the order given.
    pub fn rows(&self, commits: &Vec<CommitRecord>, repo: &str) -> (r: Vec<Row>)
        ensures
            rows_view(r@) == parent_rows(commits@, repo@),
    {
        let mut out: Vec<Row> = Vec::new();
        let mut i: usize = 0;
        assert(rows_view(out@) =~= parent_rows(commits@.take(0), repo@));
        while i < commits.len()
            invariant
                i <= commits@.len(),
                rows_view(out@) == parent_rows(commits@.take(i as int), repo@),
            decreases commits@.len() - i,
        {
            let c = &commits[i];
            assert(commits@.take(i as int + 1).drop_last() =~= commits@.take(i as int));
            let ghost before = rows_view(out@);
            let mut j: usize = 0;
            while j < c.parent_ids.len()
                invariant
                    j <= c.parent_ids@.len(),
                    rows_view(out@) == before + parent_edges(*c, repo@).take(j as int),
                decreases c.parent_ids@.len() - j,
            {
                let row: Row = vec![text(c.id.as_str()), text(c.parent_ids[j].as_str()), count_cell(j), text(repo)];
                assert(row_view(row) =~= parent_edges(*c, repo@)[j as int]);
                let ghost prev = out@;
                out.push(row);
                assert(rows_view(out@) =~= rows_view(prev).push(row_view(row)));
                assert(before + parent_edges(*c, repo@).take(j as int + 1) =~= (before + parent_edges(
                    *c,
                    repo@,
                ).take(j as int)).push(parent_edges(*c, repo@)[j as int]));
                assert(rows_view(out@) =~= before + parent_edges(*c, repo@).take(j as int + 1));
                j = j + 1;
            }
            assert(parent_edges(*c, repo@).take(j as int) =~= parent_edges(*c, repo@));
            i = i + 1;
        }
        assert(commits@.take(commits@.len() as int) =~= commits@);
        out
    }
}

} // verus!
