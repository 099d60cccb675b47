//! The `branches` table.
use vstd::prelude::*;
use crate::records::{BranchRecord, HeadInfo};
use crate::rows::{Cell, CellView, Row, flag, flag_view, opt_text, opt_text_view, opt_view, row_view, text};
use crate::text::{find_first, find_first_last, lemma_find_first_bounds, slice_text, text_eq};

verus! {

/// The remote of a remote branch: its name up to the first `/`.
pub open spec fn remote_of(name: Seq<char>) -> Seq<char> {
    if find_first(name, '/') >= 0 {
        name.take(find_first(name, '/'))
    } else {
        name
    }
}

/// The branch is the checked-out one: the head is not detached, and it is
/// this local branch by name and by target.
pub open spec fn is_head_branch(h: HeadInfo, b: BranchRecord) -> bool {
    &&& !h.detached
    &&& opt_view(h.target) == Some(b.target_id@)
    &&& !b.is_remote
    &&& b.is_branch_ref
    &&& opt_view(h.name) == Some(b.full_name@)
}

/// Upstream name, ahead and behind: for a local branch with an upstream,
/// ahead and behind default to 0 where they could not be determined; null
/// otherwise.
pub open spec fn upstream_cells(b: BranchRecord) -> Seq<CellView> {
    if b.is_remote {
        seq![CellView::Null, CellView::Null, CellView::Null]
    } else {
        match b.upstream {
            Some(u) => match u.ahead_behind {
                Some(ab) => seq![
                    opt_text_view(opt_view(u.name)),
                    CellView::Integer(ab.0 as int),
                    CellView::Integer(ab.1 as int),
                ],
                None => seq![opt_text_view(opt_view(u.name)), CellView::Integer(0), CellView::Integer(0)],
            },
            None => seq![CellView::Null, CellView::Null, CellView::Null],
        }
    }
}

pub open spec fn branch_row(h: HeadInfo, b: BranchRecord, repo: Seq<char>) -> Seq<CellView> {
    seq![
        CellView::Text(b.name@),
        CellView::Text(b.full_name@),
        CellView::Text(b.target_id@),
        flag_view(b.is_remote),
        flag_view(is_head_branch(h, b)),
        if b.is_remote {
            CellView::Text(remote_of(b.name@))
        } else {
            CellView::Null
        },
    ] + upstream_cells(b) + seq![CellView::Text(repo)]
}

/// Whether an optional text holds exactly `s`.
pub fn opt_eq(o: &Option<String>, s: &str) -> (r: bool)
    ensures
        r == (opt_view(*o) == Some(s@)),
{
    match o {
        Some(t) => text_eq(t.as_str(), s),
        None => false,
    }
}

/// Extracts the `branches` table.
pub struct BranchesProvider;

impl BranchesProvider {
    pub fn table_name(&self) -> (r: &'static str)
        ensures
            r@ == "branches"@,
    {
        "branches"
    }

    /// The row of one branch.
    pub fn row(&self, head: &HeadInfo, b: &BranchRecord, repo: &str) -> (r: Row)
        ensures
            row_view(r) == branch_row(*head, *b, repo@),
    {
        let is_head = !head.detached && opt_eq(&head.target, b.target_id.as_str()) && !b.is_remote
            && b.is_branch_ref && opt_eq(&head.name, b.full_name.as_str());
        let remote = if b.is_remote {
            let name = b.name.as_str();
            proof {
                lemma_find_first_bounds(name@, '/');
            }
            let (slash, _) = find_first_last(name, '/');
            match slash {
                Some(k) => Cell::Text(slice_text(name, 0, k)),
                None => text(name),
            }
        } else {
            Cell::Null
        };
        let (up, ahead, behind) = if b.is_remote {
            (Cell::Null, Cell::Null, Cell::Null)
        } else {
            match &b.upstream {
                Some(u) => match u.ahead_behind {
                    Some(ab) => (opt_text(&u.name), Cell::Integer(ab.0 as i64), Cell::Integer(ab.1 as i64)),
                    None => (opt_text(&u.name), Cell::Integer(0), Cell::Integer(0)),
                },
                None => (Cell::Null, Cell::Null, Cell::Null),
            }
        };
        let row: Row = vec![
            text(b.name.as_str()),
            text(b.full_name.as_str()),
            text(b.target_id.as_str()),
            flag(b.is_remote),
            flag(is_head),
            remote,
            up,
            ahead,
            behind,
            text(repo),
        ];
        assert(row_view(row) =~= branch_row(*head, *b, repo@));
        row
    }

    /// One row per branch, in the order given.
    pub fn rows(&self, head: &HeadInfo, branches: &Vec<BranchRecord>, repo: &str) -> (r: Vec<Row>)
        ensures
            r@.len() == branches@.len(),
            forall|i: int| 0 <= i < r@.len() ==> row_view(#[trigger] r@[i]) == branch_row(*head, branches@[i], repo@),
    {
        let mut out: Vec<Row> = Vec::new();
        let mut i: usize = 0;
        while i < branches.len()
            invariant
                i <= branches@.len(),
                out@.len() == i,
                forall|k: int| 0 <= k < i ==> row_view(#[trigger] out@[k]) == branch_row(*head, branches@[k], repo@),
            decreases branches@.len() - i,
        {
            out.push(self.row(head, &branches[i], repo));
            i = i + 1;
        }
        out
    }
}

} // verus!
