//! The `stashes` table.
use vstd::prelude::*;
use crate::records::StashRecord;
use crate::rows::{Cell, CellView, Row, count_cell, count_view, row_view, text};
use crate::text::{find_first, find_first_last, is_prefix, lemma_find_first_bounds, slice_text, starts_with};
use crate::timefmt::{format_utc_time, utc_time_text};

verus! {

/// The branch a stash was made on, as its message names it: the text after
/// `WIP on ` or `On ` up to the first colon, else `unknown`.
pub open spec fn stash_branch(m: Seq<char>) -> Seq<char> {
    let rest = if is_prefix("WIP on "@, m) {
        Some(m.skip("WIP on "@.len() as int))
    } else if is_prefix("On "@, m) {
        Some(m.skip("On "@.len() as int))
    } else {
        None
    };
    match rest {
        Some(r) => if find_first(r, ':') >= 0 {
            r.take(find_first(r, ':'))
        } else {
            "unknown"@
        },
        None => "unknown"@,
    }
}

/// Recovers the originating branch from a stash message.
pub fn extract_branch_from_message(message: &str) -> (r: String)
    ensures
        r@ == stash_branch(message@),
{
    let wip = "WIP on ";
    let on = "On ";
    let n = message.unicode_len();
    let skip: usize;
    if starts_with(message, wip) {
        skip = wip.unicode_len();
    } else if starts_with(message, on) {
        skip = on.unicode_len();
    } else {
        return String::from_str("unknown");
    }
    let rest = slice_text(message, skip, n);
    proof {
        lemma_find_first_bounds(rest@, ':');
        assert(rest@ =~= message@.skip(skip as int));
    }
    let (colon, _) = find_first_last(rest.as_str(), ':');
    match colon {
        Some(c) => slice_text(rest.as_str(), 0, c),
        None => String::from_str("unknown"),
    }
}

pub open spec fn stash_row(i: int, s: StashRecord, repo: Seq<char>) -> Seq<CellView> {
    seq![
        count_view(i as nat),
        CellView::Text(s.commit_id@),
        CellView::Text(s.message@),
        CellView::Text(s.author.name@),
        CellView::Text(s.author.email@),
        CellView::Text(utc_time_text(s.author.when.seconds as int)),
        CellView::Text(stash_branch(s.message@)),
        CellView::Text(repo),
    ]
}

/// Extracts the `stashes` table.
pub struct StashesProvider;

impl StashesProvider {
    pub fn table_name(&self) -> (r: &'static str)
        ensures
            r@ == "stashes"@,
    {
        "stashes"
    }

    /// One row per stash, indexed in the order given (0 = most recent).
    pub fn rows(&self, stashes: &Vec<StashRecord>, repo: &str) -> (r: Vec<Row>)
        ensures
            r@.len() == stashes@.len(),
            forall|i: int| 0 <= i < r@.len() ==> row_view(#[trigger] r@[i]) == stash_row(i, stashes@[i], repo@),
    {
        let mut out: Vec<Row> = Vec::new();
        let mut i: usize = 0;
        while i < stashes.len()
            invariant
                i <= stashes@.len(),
                out@.len() == i,
                forall|k: int| 0 <= k < i ==> row_view(#[trigger] out@[k]) == stash_row(k, stashes@[k], repo@),
            decreases stashes@.len() - i,
        {
            let s = &stashes[i];
            let row: Row = vec![
                count_cell(i),
                text(s.commit_id.as_str()),
                text(s.message.as_str()),
                text(s.author.name.as_str()),
                text(s.author.email.as_str()),
                Cell::Text(format_utc_time(s.author.when.seconds)),
                Cell::Text(extract_branch_from_message(s.message.as_str())),
                text(repo),
            ];
            assert(row_view(row) =~= stash_row(i as int, stashes@[i as int], repo@));
            out.push(row);
            i = i + 1;
        }
        out
    }
}

} // verus!
