//! The `hooks` table.
use vstd::prelude::*;
use crate::records::HookFile;
use crate::rows::{Cell, CellView, Row, flag_view, row_view, text, flag};
use crate::text::{slice_text, text_eq};

verus! {

/// The hook names git recognizes.
pub open spec fn hook_names() -> Seq<Seq<char>> {
    seq![
        "applypatch-msg"@,
        "pre-applypatch"@,
        "post-applypatch"@,
        "pre-commit"@,
        "pre-merge-commit"@,
        "prepare-commit-msg"@,
        "commit-msg"@,
        "post-commit"@,
        "pre-rebase"@,
        "post-checkout"@,
        "post-merge"@,
        "pre-push"@,
        "pre-receive"@,
        "update"@,
        "proc-receive"@,
        "post-receive"@,
        "post-update"@,
        "reference-transaction"@,
        "push-to-checkout"@,
        "pre-auto-gc"@,
        "post-rewrite"@,
        "sendemail-validate"@,
        "fsmonitor-watchman"@,
        "p4-changelist"@,
        "p4-prepare-changelist"@,
        "p4-post-changelist"@,
        "p4-pre-submit"@,
        "post-index-change"@,
    ]
}

/// Whether `name` is a recognized hook name.
pub fn is_valid_hook_name(name: &str) -> (r: bool)
    ensures
        r == hook_names().contains(name@),
{
    let names: Vec<&str> = vec![
        "applypatch-msg",
        "pre-applypatch",
        "post-applypatch",
        "pre-commit",
        "pre-merge-commit",
        "prepare-commit-msg",
        "commit-msg",
        "post-commit",
        "pre-rebase",
        "post-checkout",
        "post-merge",
        "pre-push",
        "pre-receive",
        "update",
        "proc-receive",
        "post-receive",
        "post-update",
        "reference-transaction",
        "push-to-checkout",
        "pre-auto-gc",
        "post-rewrite",
        "sendemail-validate",
        "fsmonitor-watchman",
        "p4-changelist",
        "p4-prepare-changelist",
        "p4-post-changelist",
        "p4-pre-submit",
        "post-index-change",
    ];
    assert(names@.map_values(|s: &str| s@) =~= hook_names());
    let mut i: usize = 0;
    while i < names.len()
        invariant
            names@.map_values(|s: &str| s@) == hook_names(),
            i <= names@.len(),
            forall|k: int| 0 <= k < i ==> hook_names()[k] != name@,
        decreases names@.len() - i,
    {
        if text_eq(names[i], name) {
            assert(hook_names()[i as int] == name@);
            return true;
        }
        i = i + 1;
    }
    false
}

/// The sample suffix of hook files that git installs disabled.
pub open spec fn sample_suffix() -> Seq<char> {
    ".sample"@
}

pub open spec fn is_suffix(p: Seq<char>, s: Seq<char>) -> bool {
    p.len() <= s.len() && s.skip(s.len() - p.len()) == p
}

/// The hook name of a file: its name without the sample suffix.
pub open spec fn hook_name_of(file: Seq<char>) -> Seq<char> {
    if is_suffix(sample_suffix(), file) {
        file.take(file.len() - sample_suffix().len())
    } else {
        file
    }
}

/// A file is listed where it is a sample, or its name is recognized.
pub open spec fn hook_listed(file: Seq<char>) -> bool {
    is_suffix(sample_suffix(), file) || hook_names().contains(file)
}

pub open spec fn hook_row(h: HookFile, repo: Seq<char>) -> Seq<CellView> {
    seq![
        CellView::Text(hook_name_of(h.file_name@)),
        CellView::Text(h.path@),
        flag_view(h.is_executable),
        flag_view(is_suffix(sample_suffix(), h.file_name@)),
        CellView::Integer(h.size as int),
        CellView::Text(repo),
    ]
}

pub open spec fn hook_rows(hs: Seq<HookFile>, repo: Seq<char>) -> Seq<Seq<CellView>>
    decreases hs.len(),
{
    if hs.len() == 0 {
        Seq::empty()
    } else if hook_listed(hs.last().file_name@) {
        hook_rows(hs.drop_last(), repo).push(hook_row(hs.last(), repo))
    } else {
        hook_rows(hs.drop_last(), repo)
    }
}

/// Whether `s` ends with `p`.
pub fn ends_with(s: &str, p: &str) -> (r: bool)
    ensures
        r == is_suffix(p@, s@),
{
    let n = s.unicode_len();
    let k = p.unicode_len();
    if k > n {
        return false;
    }
    let tail = slice_text(s, n - k, n);
    text_eq(tail.as_str(), p)
}

/// Extracts the `hooks` table.
pub struct HooksProvider;

impl HooksProvider {
    pub fn table_name(&self) -> (r: &'static str)
        ensures
            r@ == "hooks"@,
    {
        "hooks"
    }

    /// One row per recognized hook or sample file, in the order given.
    pub fn rows(&self, files: &Vec<HookFile>, repo: &str) -> (r: Vec<Row>)
        ensures
            r@.map_values(|x: Row| row_view(x)) == hook_rows(files@, repo@),
    {
        let suffix = ".sample";
        let mut out: Vec<Row> = Vec::new();
        let mut i: usize = 0;
        while i < files.len()
            invariant
                i <= files@.len(),
                suffix@ == sample_suffix(),
                out@.map_values(|x: Row| row_view(x)) == hook_rows(files@.take(i as int), repo@),
            decreases files@.len() - i,
        {
            let f = &files[i];
            assert(files@.take(i as int + 1).drop_last() =~= files@.take(i as int));
            let name = f.file_name.as_str();
            let is_sample = ends_with(name, suffix);
            if is_sample || is_valid_hook_name(name) {
                let hook_name = if is_sample {
                    slice_text(name, 0, name.unicode_len() - suffix.unicode_len())
                } else {
                    String::from_str(name)
                };
                let row: Row = vec![
                    Cell::Text(hook_name),
                    text(f.path.as_str()),
                    flag(f.is_executable),
                    flag(is_sample),
                    Cell::Integer(f.size),
                    text(repo),
                ];
                assert(row_view(row) =~= hook_row(files@[i as int], repo@));
                out.push(row);
                assert(out@.map_values(|x: Row| row_view(x)) =~= hook_rows(files@.take(i as int + 1), repo@));
            }
            i = i + 1;
        }
        assert(files@.take(files@.len() as int) =~= files@);
        out
    }
}

} // verus!
