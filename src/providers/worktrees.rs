//! The `worktrees` table: the main working tree and each linked one.
use vstd::prelude::*;
use crate::records::{LinkedWorktree, MainWorktree};
use crate::rows::{Cell, CellView, Row, flag, flag_view, opt_text, opt_text_view, opt_view, row_view, text};
use crate::providers::tags::{strip_prefix, strip_prefix_text};
use crate::text::{is_prefix, slice_text, starts_with};

verus! {

/// `s` without leading and trailing whitespace.
pub uninterp spec fn trimmed(s: Seq<char>) -> Seq<char>;

/// The parent of a path, where it has one.
pub uninterp spec fn path_parent(p: Seq<char>) -> Option<Seq<char>>;

/// Relies on `str::trim`: the text without leading and trailing white space,
/// which depends on the text alone.
#[verifier::external_body]
fn trim_text(s: &str) -> (r: String)
    ensures
        r@ == trimmed(s@),
{
    s.trim().to_string()
}

/// Relies on `std::path::Path::parent`: the path without its last component,
/// or none for a root or empty path; it depends on the path alone.
#[verifier::external_body]
fn parent_path(p: &str) -> (r: Option<String>)
    ensures
        opt_view(r) == path_parent(p@),
{
    match std::path::Path::new(p).parent() {
        Some(q) => Some(q.to_string_lossy().to_string()),
        None => None,
    }
}

/// The working-tree path a `gitdir` pointer gives: the directory holding the
/// `.git` file it names, or the pointer itself where it has no parent.
pub open spec fn worktree_path_of(pointer: Seq<char>, parent: Option<Seq<char>>) -> Seq<char> {
    match parent {
        Some(p) => p,
        None => pointer,
    }
}

/// Head id, branch and detachment from the trimmed content of a `HEAD`
/// file: a symbolic `ref: ` names the branch; anything else is a detached id.
pub open spec fn head_state(content: Seq<char>) -> (Option<Seq<char>>, Option<Seq<char>>, bool) {
    if is_prefix("ref: "@, content) {
        (None, Some(strip_prefix("refs/heads/"@, content.skip("ref: "@.len() as int))), false)
    } else {
        (Some(content), None, true)
    }
}

/// The path of a linked working tree from its trimmed pointer and that
/// pointer's parent.
pub fn worktree_path_from(pointer: String, parent: Option<String>) -> (r: String)
    ensures
        r@ == worktree_path_of(pointer@, opt_view(parent)),
{
    match parent {
        Some(p) => p,
        None => pointer,
    }
}

/// Reads the trimmed content of a `HEAD` file.
pub fn parse_head(content: &str) -> (r: (Option<String>, Option<String>, bool))
    ensures
        (opt_view(r.0), opt_view(r.1), r.2) == head_state(content@),
{
    let marker = "ref: ";
    if starts_with(content, marker) {
        let rest = slice_text(content, marker.unicode_len(), content.unicode_len());
        let branch = strip_prefix_text("refs/heads/", rest.as_str());
        (None, Some(branch), false)
    } else {
        (Some(String::from_str(content)), None, true)
    }
}

pub open spec fn main_row(m: MainWorktree, repo: Seq<char>) -> Seq<CellView> {
    seq![
        CellView::Text("main"@),
        CellView::Text(m.path@),
        opt_text_view(opt_view(m.head_id)),
        opt_text_view(opt_view(m.branch)),
        flag_view(m.is_bare),
        flag_view(m.is_detached),
        CellView::Integer(0),
        CellView::Null,
        CellView::Integer(0),
        CellView::Text(repo),
    ]
}

pub open spec fn linked_row(w: LinkedWorktree, repo: Seq<char>) -> Seq<CellView> {
    let state = match w.head {
        Some(h) => head_state(trimmed(h@)),
        None => (None, None, false),
    };
    seq![
        CellView::Text(w.name@),
        match w.gitdir {
            Some(g) => CellView::Text(worktree_path_of(trimmed(g@), path_parent(trimmed(g@)))),
            None => CellView::Null,
        },
        opt_text_view(state.0),
        opt_text_view(state.1),
        CellView::Integer(0),
        flag_view(state.2),
        flag_view(w.locked is Some),
        match w.locked {
            Some(reason) => opt_text_view(opt_view(reason)),
            None => CellView::Null,
        },
        CellView::Integer(0),
        CellView::Text(repo),
    ]
}

/// Extracts the `worktrees` table.
pub struct WorktreesProvider;

impl WorktreesProvider {
    pub fn table_name(&self) -> (r: &'static str)
        ensures
            r@ == "worktrees"@,
    {
        "worktrees"
    }

    /// The row of one linked working tree.
    pub fn linked(&self, w: &LinkedWorktree, repo: &str) -> (r: Row)
        ensures
            row_view(r) == linked_row(*w, repo@),
    {
        let path = match &w.gitdir {
            Some(g) => {
                let t = trim_text(g.as_str());
                let parent = parent_path(t.as_str());
                Cell::Text(worktree_path_from(t, parent))
            },
            None => Cell::Null,
        };
        let (head_id, branch, detached) = match &w.head {
            Some(h) => {
                let t = trim_text(h.as_str());
                parse_head(t.as_str())
            },
            None => (None, None, false),
        };
        let reason = match &w.locked {
            Some(r) => opt_text(r),
            None => Cell::Null,
        };
        let row: Row = vec![
            text(w.name.as_str()),
            path,
            opt_text(&head_id),
            opt_text(&branch),
            Cell::Integer(0),
            flag(detached),
            flag(w.locked.is_some()),
            reason,
            Cell::Integer(0),
            text(repo),
        ];
        assert(row_view(row) =~= linked_row(*w, repo@));
        row
    }

    /// The main working tree first, then one row per linked one in the order given.
    pub fn rows(&self, main: &MainWorktree, linked: &Vec<LinkedWorktree>, repo: &str) -> (r: Vec<Row>)
        ensures
            r@.len() == linked@.len() + 1,
            row_view(r@[0]) == main_row(*main, repo@),
            forall|i: int| 0 <= i < linked@.len() ==> row_view(#[trigger] r@[i + 1]) == linked_row(linked@[i], repo@),
    {
        let first: Row = vec![
            text("main"),
            text(main.path.as_str()),
            opt_text(&main.head_id),
            opt_text(&main.branch),
            flag(main.is_bare),
            flag(main.is_detached),
            Cell::Integer(0),
            Cell::Null,
            Cell::Integer(0),
            text(repo),
        ];
        assert(row_view(first) =~= main_row(*main, repo@));
        let mut out: Vec<Row> = Vec::new();
        out.push(first);
        let mut i: usize = 0;
        while i < linked.len()
            invariant
                i <= linked@.len(),
                out@.len() == i + 1,
                row_view(out@[0]) == main_row(*main, repo@),
                forall|k: int| 0 <= k < i ==> row_view(#[trigger] out@[k + 1]) == linked_row(linked@[k], repo@),
            decreases linked@.len() - i,
        {
            out.push(self.linked(&linked[i], repo));
            i = i + 1;
        }
        out
    }
}

} // verus!
