//! The `status` table: working-tree status per path.
use vstd::prelude::*;
use crate::records::{StatusEntry, StatusFlags};
use crate::rows::{Cell, CellView, Row, flag, flag_view, row_view, text};
use crate::text::push_char;

verus! {

/// The index-side status letter.
pub open spec fn index_char(f: StatusFlags) -> char {
    if f.index_new {
        'A'
    } else if f.index_modified {
        'M'
    } else if f.index_deleted {
        'D'
    } else if f.index_renamed {
        'R'
    } else if f.index_typechange {
        'T'
    } else {
        ' '
    }
}

/// The working-tree-side status letter.
pub open spec fn worktree_char(f: StatusFlags) -> char {
    if f.wt_new {
        '?'
    } else if f.wt_modified {
        'M'
    } else if f.wt_deleted {
        'D'
    } else if f.wt_renamed {
        'R'
    } else if f.wt_typechange {
        'T'
    } else if f.ignored {
        '!'
    } else if f.conflicted {
        'U'
    } else {
        ' '
    }
}

pub open spec fn is_staged(f: StatusFlags) -> bool {
    f.index_new || f.index_modified || f.index_deleted || f.index_renamed || f.index_typechange
}

pub open spec fn status_row(e: StatusEntry, repo: Seq<char>) -> Seq<CellView> {
    let f = e.flags;
    seq![
        CellView::Text(e.path@),
        CellView::Text(seq![index_char(f), worktree_char(f)]),
        CellView::Text(seq![index_char(f)]),
        CellView::Text(seq![worktree_char(f)]),
        flag_view(is_staged(f)),
        flag_view(f.wt_modified || f.index_modified),
        flag_view(f.wt_new || f.index_new),
        flag_view(f.wt_deleted || f.index_deleted),
        flag_view(f.wt_renamed || f.index_renamed),
        flag_view(f.index_typechange || f.wt_typechange),
        flag_view(f.ignored),
        flag_view(f.conflicted),
        CellView::Text(repo),
    ]
}

/// The two status letters, index side first.
pub fn format_status(f: StatusFlags) -> (r: (char, char))
    ensures
        r == (index_char(f), worktree_char(f)),
{
    let i = if f.index_new {
        'A'
    } else if f.index_modified {
        'M'
    } else if f.index_deleted {
        'D'
    } else if f.index_renamed {
        'R'
    } else if f.index_typechange {
        'T'
    } else {
        ' '
    };
    let w = if f.wt_new {
        '?'
    } else if f.wt_modified {
        'M'
    } else if f.wt_deleted {
        'D'
    } else if f.wt_renamed {
        'R'
    } else if f.wt_typechange {
        'T'
    } else if f.ignored {
        '!'
    } else if f.conflicted {
        'U'
    } else {
        ' '
    };
    (i, w)
}

/// Extracts the `status` table.
pub struct StatusProvider;

impl StatusProvider {
    pub fn table_name(&self) -> (r: &'static str)
        ensures
            r@ == "status"@,
    {
        "status"
    }

    /// The row of one path.
    pub fn row(&self, e: &StatusEntry, repo: &str) -> (r: Row)
        ensures
            row_view(r) == status_row(*e, repo@),
    {
        let f = e.flags;
        let (i, w) = format_status(f);
        let mut code = String::new();
        push_char(&mut code, i);
        push_char(&mut code, w);
        let mut head = String::new();
        push_char(&mut head, i);
        let mut index = String::new();
        push_char(&mut index, w);
        assert(code@ =~= seq![i, w]);
        assert(head@ =~= seq![i]);
        assert(index@ =~= seq![w]);
        let staged = f.index_new || f.index_modified || f.index_deleted || f.index_renamed || f.index_typechange;
        let row: Row = vec![
            text(e.path.as_str()),
            Cell::Text(code),
            Cell::Text(head),
            Cell::Text(index),
            flag(staged),
            flag(f.wt_modified || f.index_modified),
            flag(f.wt_new || f.index_new),
            flag(f.wt_deleted || f.index_deleted),
            flag(f.wt_renamed || f.index_renamed),
            flag(f.index_typechange || f.wt_typechange),
            flag(f.ignored),
            flag(f.conflicted),
            text(repo),
        ];
        assert(row_view(row) =~= status_row(*e, repo@));
        row
    }

    /// One row per path, in the order given.
    pub fn rows(&self, entries: &Vec<StatusEntry>, repo: &str) -> (r: Vec<Row>)
        ensures
            r@.len() == entries@.len(),
            forall|i: int| 0 <= i < r@.len() ==> row_view(#[trigger] r@[i]) == status_row(entries@[i], repo@),
    {
        let mut out: Vec<Row> = Vec::new();
        let mut i: usize = 0;
        while i < entries.len()
            invariant
                i <= entries@.len(),
                out@.len() == i,
                forall|k: int| 0 <= k < i ==> row_view(#[trigger] out@[k]) == status_row(entries@[k], repo@),
            decreases entries@.len() - i,
        {
            out.push(self.row(&entries[i], repo));
            i = i + 1;
        }
        out
    }
}

} // verus!
