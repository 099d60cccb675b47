//! The `commits` table.
use vstd::prelude::*;
use crate::records::CommitRecord;
use crate::rows::{Cell, CellView, Row, count_cell, count_view, flag, flag_view, row_view, text};
use crate::text::slice_text;
use crate::timefmt::{format_git_time, zoned_time_text};

verus! {

/// The first seven characters of an id.
pub open spec fn short_id(id: Seq<char>) -> Seq<char> {
    id.take(if id.len() < 7 { id.len() as int } else { 7 })
}

/// The body of a message: null where absent or empty.
pub open spec fn body_view(b: Option<String>) -> CellView {
    match b {
        Some(t) => if t@.len() == 0 {
            CellView::Null
        } else {
            CellView::Text(t@)
        },
        None => CellView::Null,
    }
}

pub open spec fn commit_row(c: CommitRecord, repo: Seq<char>) -> Seq<CellView> {
    seq![
        CellView::Text(c.id@),
        CellView::Text(short_id(c.id@)),
        CellView::Text(c.tree_id@),
        CellView::Text(c.author.name@),
        CellView::Text(c.author.email@),
        CellView::Text(zoned_time_text(c.author.when.seconds as int, c.author.when.offset_minutes as int)),
        CellView::Text(c.committer.name@),
        CellView::Text(c.committer.email@),
        CellView::Text(zoned_time_text(c.committer.when.seconds as int, c.committer.when.offset_minutes as int)),
        CellView::Text(c.message@),
        CellView::Text(c.summary@),
        body_view(c.body),
        count_view(c.parent_ids@.len()),
        flag_view(c.parent_ids@.len() > 1),
        CellView::Text(repo),
    ]
}

/// Extracts the `commits` table.
pub struct CommitsProvider;

impl CommitsProvider {
    pub fn table_name(&self) -> (r: &'static str)
        ensures
            r@ == "commits"@,
    {
        "commits"
    }

    /// The row of one commit.
    pub fn row(&self, c: &CommitRecord, repo: &str) -> (r: Row)
        ensures
            row_view(r) == commit_row(*c, repo@),
    {
        let id = c.id.as_str();
        let n = id.unicode_len();
        let short = slice_text(id, 0, if n < 7 { n } else { 7 });
        let body = match &c.body {
            Some(b) => if b.as_str().unicode_len() == 0 {
                Cell::Null
            } else {
                text(b.as_str())
            },
            None => Cell::Null,
        };
        let np = c.parent_ids.len();
        let row: Row = vec![
            text(id),
            Cell::Text(short),
            text(c.tree_id.as_str()),
            text(c.author.name.as_str()),
            text(c.author.email.as_str()),
            Cell::Text(format_git_time(c.author.when.seconds, c.author.when.offset_minutes)),
            text(c.committer.name.as_str()),
            text(c.committer.email.as_str()),
            Cell::Text(format_git_time(c.committer.when.seconds, c.committer.when.offset_minutes)),
            text(c.message.as_str()),
            text(c.summary.as_str()),
            body,
            count_cell(np),
            flag(np > 1),
            text(repo),
        ];
        assert(row_view(row) =~= commit_row(*c, repo@));
        row
    }

    /// One row per commit, in the order given.
    pub fn rows(&self, commits: &Vec<CommitRecord>, repo: &str) -> (r: Vec<Row>)
        ensures
            r@.len() == commits@.len(),
            forall|i: int| 0 <= i < r@.len() ==> row_view(#[trigger] r@[i]) == commit_row(commits@[i], repo@),
    {
        let mut out: Vec<Row> = Vec::new();
        let mut i: usize = 0;
        while i < commits.len()
            invariant
                i <= commits@.len(),
                out@.len() == i,
                forall|k: int| 0 <= k < i ==> row_view(#[trigger] out@[k]) == commit_row(commits@[k], repo@),
            decreases commits@.len() - i,
        {
            out.push(self.row(&commits[i], repo));
            i = i + 1;
        }
        out
    }
}

} // verus!
