//! The `reflog` table.
use vstd::prelude::*;
use crate::error::VcsqlError;
use crate::records::{RefRecord, ReflogEntry};
use crate::rows::{Cell, CellView, Row, count_cell, count_view, row_view, rows_view, text};
use crate::source::RepoSource;
use crate::text::{is_prefix, is_prefix_ci, starts_with, starts_with_ci};
use crate::timefmt::{format_utc_time, utc_time_text};

verus! {

/// The action of a reflog message, by case-insensitive prefix.
pub open spec fn action_of(m: Seq<char>) -> Seq<char> {
    if is_prefix_ci("commit:"@, m) || is_prefix_ci("commit (initial):"@, m) || is_prefix_ci(
        "commit (amend):"@,
        m,
    ) {
        "commit"@
    } else if is_prefix_ci("checkout:"@, m) {
        "checkout"@
    } else if is_prefix_ci("merge"@, m) {
        "merge"@
    } else if is_prefix_ci("rebase"@, m) {
        "rebase"@
    } else if is_prefix_ci("reset:"@, m) {
        "reset"@
    } else if is_prefix_ci("pull:"@, m) {
        "pull"@
    } else if is_prefix_ci("push"@, m) {
        "push"@
    } else if is_prefix_ci("branch:"@, m) {
        "branch"@
    } else if is_prefix_ci("clone:"@, m) {
        "clone"@
    } else if is_prefix_ci("cherry-pick:"@, m) {
        "cherry-pick"@
    } else if is_prefix_ci("revert:"@, m) {
        "revert"@
    } else {
        "other"@
    }
}

/// Classifies a reflog message into its action.
pub fn extract_action(message: &str) -> (r: String)
    ensures
        r@ == action_of(message@),
{
    let m = message;
    let a = if starts_with_ci(m, "commit:") || starts_with_ci(m, "commit (initial):")
        || starts_with_ci(m, "commit (amend):") {
        "commit"
    } else if starts_with_ci(m, "checkout:") {
        "checkout"
    } else if starts_with_ci(m, "merge") {
        "merge"
    } else if starts_with_ci(m, "rebase") {
        "rebase"
    } else if starts_with_ci(m, "reset:") {
        "reset"
    } else if starts_with_ci(m, "pull:") {
        "pull"
    } else if starts_with_ci(m, "push") {
        "push"
    } else if starts_with_ci(m, "branch:") {
        "branch"
    } else if starts_with_ci(m, "clone:") {
        "clone"
    } else if starts_with_ci(m, "cherry-pick:") {
        "cherry-pick"
    } else if starts_with_ci(m, "revert:") {
        "revert"
    } else {
        "other"
    };
    String::from_str(a)
}

pub open spec fn reflog_row(ref_name: Seq<char>, i: int, e: ReflogEntry, repo: Seq<char>) -> Seq<CellView> {
    seq![
        CellView::Text(ref_name),
        count_view(i as nat),
        CellView::Text(e.old_id@),
        CellView::Text(e.new_id@),
        CellView::Text(e.committer.name@),
        CellView::Text(e.committer.email@),
        CellView::Text(utc_time_text(e.committer.when.seconds as int)),
        CellView::Text(e.message@),
        CellView::Text(action_of(e.message@)),
        CellView::Text(repo),
    ]
}

/// The rows of one reference's reflog, indexed from 0 = most recent.
pub open spec fn entries_rows(ref_name: Seq<char>, es: Seq<ReflogEntry>, repo: Seq<char>) -> Seq<Seq<CellView>> {
    Seq::new(es.len(), |i: int| reflog_row(ref_name, i, es[i], repo))
}

/// The full names of the local branches among `refs`, in order.
pub open spec fn local_branches(refs: Seq<RefRecord>) -> Seq<Seq<char>>
    decreases refs.len(),
{
    if refs.len() == 0 {
        Seq::empty()
    } else if is_prefix("refs/heads/"@, refs.last().full_name@) {
        local_branches(refs.drop_last()).push(refs.last().full_name@)
    } else {
        local_branches(refs.drop_last())
    }
}

/// The rows of the reflogs of `names`, in order; `logs` holds what came
/// back for each, nothing where a reflog could not be read.
pub open spec fn reflogs_rows(names: Seq<Seq<char>>, logs: Seq<Option<Seq<ReflogEntry>>>, repo: Seq<char>) -> Seq<
    Seq<CellView>,
>
    decreases names.len(),
{
    if names.len() == 0 || logs.len() != names.len() {
        Seq::empty()
    } else {
        reflogs_rows(names.drop_last(), logs.drop_last(), repo) + match logs.last() {
            Some(es) => entries_rows(names.last(), es, repo),
            None => Seq::empty(),
        }
    }
}

proof fn lemma_reflogs_push(
    names: Seq<Seq<char>>,
    logs: Seq<Option<Seq<ReflogEntry>>>,
    n: Seq<char>,
    l: Option<Seq<ReflogEntry>>,
    repo: Seq<char>,
)
    requires
        names.len() == logs.len(),
    ensures
        reflogs_rows(names.push(n), logs.push(l), repo) == reflogs_rows(names, logs, repo) + match l {
            Some(es) => entries_rows(n, es, repo),
            None => Seq::empty(),
        },
{
    assert(names.push(n).drop_last() =~= names);
    assert(logs.push(l).drop_last() =~= logs);
}

/// Extracts the `reflog` table.
pub struct ReflogProvider;

impl ReflogProvider {
    pub fn table_name(&self) -> (r: &'static str)
        ensures
            r@ == "reflog"@,
    {
        "reflog"
    }

    /// The rows of one reference's reflog, indexed 0 = most recent.
    pub fn entry_rows(&self, ref_name: &str, entries: &Vec<ReflogEntry>, repo: &str) -> (r: Vec<Row>)
        ensures
            rows_view(r@) == entries_rows(ref_name@, entries@, repo@),
    {
        let mut out: Vec<Row> = Vec::new();
        let mut i: usize = 0;
        while i < entries.len()
            invariant
                i <= entries@.len(),
                out@.len() == i,
                forall|k: int|
                    0 <= k < i ==> row_view(#[trigger] out@[k]) == reflog_row(
                        ref_name@,
                        k,
                        entries@[k],
                        repo@,
                    ),
            decreases entries@.len() - i,
        {
            let e = &entries[i];
            let row: Row = vec![
                text(ref_name),
                count_cell(i),
                text(e.old_id.as_str()),
                text(e.new_id.as_str()),
                text(e.committer.name.as_str()),
                text(e.committer.email.as_str()),
                Cell::Text(format_utc_time(e.committer.when.seconds)),
                text(e.message.as_str()),
                Cell::Text(extract_action(e.message.as_str())),
                text(repo),
            ];
            assert(row_view(row) =~= reflog_row(ref_name@, i as int, entries@[i as int], repo@));
            out.push(row);
            i = i + 1;
        }
        assert(rows_view(out@) =~= entries_rows(ref_name@, entries@, repo@));
        out
    }

    /// Reflog rows of the head, then of every local branch in the order the
    /// references come; a reflog that cannot be read adds no rows, while a
    /// failure to list references fails.
    pub fn collect<R: RepoSource>(&self, repo: &mut R, path: &str) -> (r: Result<Vec<Row>, VcsqlError>)
        ensures
            match r {
                Ok(rows) => exists|refs: Seq<RefRecord>, logs: Seq<Option<Seq<ReflogEntry>>>|
                    logs.len() == local_branches(refs).len() + 1 && rows_view(rows@) == #[trigger] reflogs_rows(
                        seq!["HEAD"@] + local_branches(refs),
                        logs,
                        path@,
                    ),
                Err(e) => e is Git,
            },
    {
        let head = "HEAD";
        let mut out: Vec<Row> = Vec::new();
        let first = repo.reflog(head);
        let ghost mut l0: Option<Seq<ReflogEntry>> = None;
        match first {
            Some(es) => {
                proof {
                    l0 = Some(es@);
                }
                let mut more = self.entry_rows(head, &es, path);
                out.append(&mut more);
            },
            None => {},
        }
        proof {
            lemma_reflogs_push(Seq::empty(), Seq::empty(), head@, l0, path@);
            assert(reflogs_rows(Seq::empty(), Seq::empty(), path@) =~= Seq::empty());
            assert(rows_view(out@) =~= reflogs_rows(seq![head@], seq![l0], path@));
        }
        let refs = match repo.references() {
            Ok(v) => v,
            Err(e) => return Err(VcsqlError::Git(e)),
        };
        let ghost mut names: Seq<Seq<char>> = seq![head@];
        let ghost mut logs: Seq<Option<Seq<ReflogEntry>>> = seq![l0];
        let prefix = "refs/heads/";
        let mut i: usize = 0;
        assert(refs@.take(0) =~= Seq::<RefRecord>::empty());
        assert(names =~= seq!["HEAD"@] + local_branches(refs@.take(0)));
        while i < refs.len()
            invariant
                i <= refs@.len(),
                prefix@ == "refs/heads/"@,
                names == seq!["HEAD"@] + local_branches(refs@.take(i as int)),
                logs.len() == names.len(),
                rows_view(out@) == reflogs_rows(names, logs, path@),
            decreases refs@.len() - i,
        {
            let name = refs[i].full_name.as_str();
            assert(refs@.take(i as int + 1).drop_last() =~= refs@.take(i as int));
            if starts_with(name, prefix) {
                let got = repo.reflog(name);
                let ghost mut l: Option<Seq<ReflogEntry>> = None;
                let ghost before = out@;
                match got {
                    Some(es) => {
                        proof {
                            l = Some(es@);
                        }
                        let mut more = self.entry_rows(name, &es, path);
                        let ghost added = more@;
                        out.append(&mut more);
                        assert(rows_view(out@) =~= rows_view(before) + rows_view(added));
                    },
                    None => {},
                }
                proof {
                    lemma_reflogs_push(names, logs, name@, l, path@);
                    names = names.push(name@);
                    logs = logs.push(l);
                    assert(seq!["HEAD"@] + local_branches(refs@.take(i as int + 1)) =~= names);
                }
            }
            i = i + 1;
        }
        assert(refs@.take(refs@.len() as int) =~= refs@);
        Ok(out)
    }
}

} // verus!
