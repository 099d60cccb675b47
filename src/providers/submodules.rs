//! The `submodules` table.
use vstd::prelude::*;
use crate::records::SubmoduleRecord;
use crate::rows::{CellView, Row, opt_text, opt_text_view, opt_view, row_view, text};
use crate::text::text_eq;

verus! {

/// The state of a submodule from its recorded and checked-out commits.
pub open spec fn submodule_state(head: Option<Seq<char>>, workdir: Option<Seq<char>>) -> Seq<char> {
    match (head, workdir) {
        (None, None) => "uninitialized"@,
        (Some(h), Some(w)) => if h == w {
            "current"@
        } else {
            "modified"@
        },
        (Some(_), None) => "uninitialized"@,
        (None, Some(_)) => "added"@,
    }
}

pub open spec fn submodule_row(s: SubmoduleRecord, repo: Seq<char>) -> Seq<CellView> {
    seq![
        CellView::Text(s.name@),
        CellView::Text(s.path@),
        CellView::Text(s.url@),
        opt_text_view(opt_view(s.branch)),
        opt_text_view(opt_view(s.head_id)),
        CellView::Text(submodule_state(opt_view(s.head_id), opt_view(s.workdir_id))),
        CellView::Text(repo),
    ]
}

/// The state of a submodule.
pub fn submodule_status(head: &Option<String>, workdir: &Option<String>) -> (r: &'static str)
    ensures
        r@ == submodule_state(opt_view(*head), opt_view(*workdir)),
{
    match (head, workdir) {
        (None, None) => "uninitialized",
        (Some(h), Some(w)) => if text_eq(h.as_str(), w.as_str()) {
            "current"
        } else {
            "modified"
        },
        (Some(_), None) => "uninitialized",
        (None, Some(_)) => "added",
    }
}

/// Extracts the `submodules` table.
pub struct SubmodulesProvider;

impl SubmodulesProvider {
    pub fn table_name(&self) -> (r: &'static str)
        ensures
            r@ == "submodules"@,
    {
        "submodules"
    }

    /// One row per submodule, in the order given.
    pub fn rows(&self, subs: &Vec<SubmoduleRecord>, repo: &str) -> (r: Vec<Row>)
        ensures
            r@.len() == subs@.len(),
            forall|i: int| 0 <= i < r@.len() ==> row_view(#[trigger] r@[i]) == submodule_row(subs@[i], repo@),
    {
        let mut out: Vec<Row> = Vec::new();
        let mut i: usize = 0;
        while i < subs.len()
            invariant
                i <= subs@.len(),
                out@.len() == i,
                forall|k: int| 0 <= k < i ==> row_view(#[trigger] out@[k]) == submodule_row(subs@[k], repo@),
            decreases subs@.len() - i,
        {
            let s = &subs[i];
            let row: Row = vec![
                text(s.name.as_str()),
                text(s.path.as_str()),
                text(s.url.as_str()),
                opt_text(&s.branch),
                opt_text(&s.head_id),
                text(submodule_status(&s.head_id, &s.workdir_id)),
                text(repo),
            ];
            assert(row_view(row) =~= submodule_row(subs@[i as int], repo@));
            out.push(row);
            i = i + 1;
        }
        out
    }
}

} // verus!
