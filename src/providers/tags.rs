//! The `tags` table.
use vstd::prelude::*;
use crate::records::{ObjectKind, TagRecord};
use crate::rows::{Cell, CellView, Row, opt_text, opt_text_view, opt_view, row_view, text};
use crate::text::{is_prefix, slice_text, starts_with};
use crate::timefmt::{format_utc_time, utc_time_text};

verus! {

/// `s` without the prefix `p`, where it has it.
pub open spec fn strip_prefix(p: Seq<char>, s: Seq<char>) -> Seq<char> {
    if is_prefix(p, s) {
        s.skip(p.len() as int)
    } else {
        s
    }
}

/// The name of an object kind; a tag object counts only behind an annotated tag.
pub open spec fn kind_text(k: ObjectKind, annotated: bool) -> Seq<char> {
    match k {
        ObjectKind::Commit => "commit"@,
        ObjectKind::Tree => "tree"@,
        ObjectKind::Blob => "blob"@,
        ObjectKind::Tag => if annotated {
            "tag"@
        } else {
            "unknown"@
        },
        ObjectKind::Other => "unknown"@,
    }
}

pub open spec fn tag_row(t: TagRecord, repo: Seq<char>) -> Seq<CellView> {
    match t {
        TagRecord::Annotated { full_name, target_id, target_kind, tagger, message } => seq![
            CellView::Text(strip_prefix("refs/tags/"@, full_name@)),
            CellView::Text(full_name@),
            CellView::Text(target_id@),
            CellView::Text(kind_text(target_kind, true)),
            CellView::Integer(1),
            match tagger {
                Some(g) => opt_text_view(opt_view(g.name)),
                None => CellView::Null,
            },
            match tagger {
                Some(g) => opt_text_view(opt_view(g.email)),
                None => CellView::Null,
            },
            match tagger {
                Some(g) => CellView::Text(utc_time_text(g.when.seconds as int)),
                None => CellView::Null,
            },
            opt_text_view(opt_view(message)),
            CellView::Text(repo),
        ],
        TagRecord::Lightweight { full_name, target_id, kind } => seq![
            CellView::Text(strip_prefix("refs/tags/"@, full_name@)),
            CellView::Text(full_name@),
            CellView::Text(target_id@),
            CellView::Text(kind_text(kind, false)),
            CellView::Integer(0),
            CellView::Null,
            CellView::Null,
            CellView::Null,
            CellView::Null,
            CellView::Text(repo),
        ],
    }
}

/// The name of an object kind.
pub fn kind_name(k: ObjectKind, annotated: bool) -> (r: &'static str)
    ensures
        r@ == kind_text(k, annotated),
{
    match k {
        ObjectKind::Commit => "commit",
        ObjectKind::Tree => "tree",
        ObjectKind::Blob => "blob",
        ObjectKind::Tag => if annotated {
            "tag"
        } else {
            "unknown"
        },
        ObjectKind::Other => "unknown",
    }
}

/// `s` without the prefix `p`, where it has it.
pub fn strip_prefix_text(p: &str, s: &str) -> (r: String)
    ensures
        r@ == strip_prefix(p@, s@),
{
    if starts_with(s, p) {
        slice_text(s, p.unicode_len(), s.unicode_len())
    } else {
        String::from_str(s)
    }
}

/// Extracts the `tags` table.
pub struct TagsProvider;

impl TagsProvider {
    pub fn table_name(&self) -> (r: &'static str)
        ensures
            r@ == "tags"@,
    {
        "tags"
    }

    /// The row of one tag.
    pub fn row(&self, t: &TagRecord, repo: &str) -> (r: Row)
        ensures
            row_view(r) == tag_row(*t, repo@),
    {
        let prefix = "refs/tags/";
        match t {
            TagRecord::Annotated { full_name, target_id, target_kind, tagger, message } => {
                let (name, email, at) = match tagger {
                    Some(g) => (opt_text(&g.name), opt_text(&g.email), Cell::Text(format_utc_time(g.when.seconds))),
                    None => (Cell::Null, Cell::Null, Cell::Null),
                };
                let row: Row = vec![
                    Cell::Text(strip_prefix_text(prefix, full_name.as_str())),
                    text(full_name.as_str()),
                    text(target_id.as_str()),
                    text(kind_name(*target_kind, true)),
                    Cell::Integer(1),
                    name,
                    email,
                    at,
                    opt_text(message),
                    text(repo),
                ];
                assert(row_view(row) =~= tag_row(*t, repo@));
                row
            },
            TagRecord::Lightweight { full_name, target_id, kind } => {
                let row: Row = vec![
                    Cell::Text(strip_prefix_text(prefix, full_name.as_str())),
                    text(full_name.as_str()),
                    text(target_id.as_str()),
                    text(kind_name(*kind, false)),
                    Cell::Integer(0),
                    Cell::Null,
                    Cell::Null,
                    Cell::Null,
                    Cell::Null,
                    text(repo),
                ];
                assert(row_view(row) =~= tag_row(*t, repo@));
                row
            },
        }
    }

    /// One row per tag, in the order given.
    pub fn rows(&self, tags: &Vec<TagRecord>, repo: &str) -> (r: Vec<Row>)
        ensures
            r@.len() == tags@.len(),
            forall|i: int| 0 <= i < r@.len() ==> row_view(#[trigger] r@[i]) == tag_row(tags@[i], repo@),
    {
        let mut out: Vec<Row> = Vec::new();
        let mut i: usize = 0;
        while i < tags.len()
            invariant
                i <= tags@.len(),
                out@.len() == i,
                forall|k: int| 0 <= k < i ==> row_view(#[trigger] out@[k]) == tag_row(tags@[k], repo@),
            decreases tags@.len() - i,
        {
            out.push(self.row(&tags[i], repo));
            i = i + 1;
        }
        out
    }
}

} // verus!
