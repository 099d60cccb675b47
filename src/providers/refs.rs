//! The `refs` table: every reference, classified by namespace.
use vstd::prelude::*;
use crate::records::RefRecord;
use crate::rows::{Cell, CellView, Row, flag, flag_view, opt_text, opt_text_view, opt_view, row_view, text};
use crate::text::{is_prefix, starts_with};

verus! {

/// The kind of a reference by the namespace its full name lies in.
pub open spec fn ref_kind(full: Seq<char>) -> Seq<char> {
    if is_prefix("refs/heads/"@, full) {
        "branch"@
    } else if is_prefix("refs/remotes/"@, full) {
        "remote"@
    } else if is_prefix("refs/tags/"@, full) {
        "tag"@
    } else if is_prefix("refs/notes/"@, full) {
        "note"@
    } else if is_prefix("refs/stash"@, full) {
        "stash"@
    } else {
        "other"@
    }
}

/// An optional text, or empty.
pub open spec fn or_empty(o: Option<String>) -> Seq<char> {
    match o {
        Some(t) => t@,
        None => Seq::empty(),
    }
}

pub open spec fn ref_row(r: RefRecord, repo: Seq<char>) -> Seq<CellView> {
    seq![
        CellView::Text(r.shorthand@),
        CellView::Text(r.full_name@),
        CellView::Text(
            if r.is_symbolic {
                or_empty(r.resolved_target)
            } else {
                or_empty(r.target)
            },
        ),
        CellView::Text(ref_kind(r.full_name@)),
        flag_view(r.is_symbolic),
        if r.is_symbolic {
            opt_text_view(opt_view(r.symbolic_target))
        } else {
            CellView::Null
        },
        CellView::Text(repo),
    ]
}

/// The kind of a reference by its full name.
pub fn classify_ref(full: &str) -> (r: &'static str)
    ensures
        r@ == ref_kind(full@),
{
    if starts_with(full, "refs/heads/") {
        "branch"
    } else if starts_with(full, "refs/remotes/") {
        "remote"
    } else if starts_with(full, "refs/tags/") {
        "tag"
    } else if starts_with(full, "refs/notes/") {
        "note"
    } else if starts_with(full, "refs/stash") {
        "stash"
    } else {
        "other"
    }
}

fn or_empty_text(o: &Option<String>) -> (r: String)
    ensures
        r@ == or_empty(*o),
{
    match o {
        Some(t) => String::from_str(t.as_str()),
        None => String::new(),
    }
}

/// Extracts the `refs` table.
pub struct RefsProvider;

impl RefsProvider {
    pub fn table_name(&self) -> (r: &'static str)
        ensures
            r@ == "refs"@,
    {
        "refs"
    }

    /// The row of one reference.
    pub fn row(&self, r: &RefRecord, repo: &str) -> (out: Row)
        ensures
            row_view(out) == ref_row(*r, repo@),
    {
        let target = if r.is_symbolic {
            or_empty_text(&r.resolved_target)
        } else {
            or_empty_text(&r.target)
        };
        let row: Row = vec![
            text(r.shorthand.as_str()),
            text(r.full_name.as_str()),
            Cell::Text(target),
            text(classify_ref(r.full_name.as_str())),
            flag(r.is_symbolic),
            if r.is_symbolic {
                opt_text(&r.symbolic_target)
            } else {
                Cell::Null
            },
            text(repo),
        ];
        assert(row_view(row) =~= ref_row(*r, repo@));
        row
    }

    /// One row per reference, in the order given.
    pub fn rows(&self, refs: &Vec<RefRecord>, repo: &str) -> (r: Vec<Row>)
        ensures
            r@.len() == refs@.len(),
            forall|i: int| 0 <= i < r@.len() ==> row_view(#[trigger] r@[i]) == ref_row(refs@[i], repo@),
    {
        let mut out: Vec<Row> = Vec::new();
        let mut i: usize = 0;
        while i < refs.len()
            invariant
                i <= refs@.len(),
                out@.len() == i,
                forall|k: int| 0 <= k < i ==> row_view(#[trigger] out@[k]) == ref_row(refs@[k], repo@),
            decreases refs@.len() - i,
        {
            out.push(self.row(&refs[i], repo));
            i = i + 1;
        }
        out
    }
}

} // verus!
