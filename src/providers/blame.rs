//! The `blame` table: line-level attribution of files under the head.
use vstd::prelude::*;
use crate::error::VcsqlError;
use crate::records::{BlameFile, BlameHunk};
use crate::rows::{Cell, CellView, Row, row_view, rows_view, text};
use crate::source::RepoSource;
use crate::timefmt::{format_utc_time, utc_time_text};

verus! {

/// The text of line `i` (from 0) of a file, or empty past its end.
pub open spec fn line_text(lines: Seq<String>, i: int) -> Seq<char> {
    if 0 <= i < lines.len() {
        lines[i]@
    } else {
        Seq::empty()
    }
}

/// The row of line `k` of a hunk.
pub open spec fn blame_row(path: Seq<char>, h: BlameHunk, k: int, lines: Seq<String>, repo: Seq<char>) -> Seq<CellView> {
    seq![
        CellView::Text(path),
        CellView::Integer(h.final_start_line + k),
        CellView::Text(h.commit_id@),
        CellView::Integer(h.orig_start_line + k),
        CellView::Text(
            match h.orig_path {
                Some(p) => p@,
                None => path,
            },
        ),
        CellView::Text(h.signature.name@),
        CellView::Text(h.signature.email@),
        CellView::Text(utc_time_text(h.signature.when.seconds as int)),
        CellView::Text(line_text(lines, h.final_start_line + k - 1)),
        CellView::Text(repo),
    ]
}

/// One row per line of a hunk.
pub open spec fn hunk_rows(path: Seq<char>, h: BlameHunk, lines: Seq<String>, repo: Seq<char>) -> Seq<Seq<CellView>> {
    Seq::new(h.lines_in_hunk as nat, |k: int| blame_row(path, h, k, lines, repo))
}

/// One row per attributed line of a file, hunk by hunk.
pub open spec fn file_rows(path: Seq<char>, hunks: Seq<BlameHunk>, lines: Seq<String>, repo: Seq<char>) -> Seq<
    Seq<CellView>,
>
    decreases hunks.len(),
{
    if hunks.len() == 0 {
        Seq::empty()
    } else {
        file_rows(path, hunks.drop_last(), lines, repo) + hunk_rows(path, hunks.last(), lines, repo)
    }
}

/// The rows of the files of `paths` whose blame came back, in order.
pub open spec fn blame_rows(paths: Seq<Seq<char>>, files: Seq<Option<BlameFile>>, repo: Seq<char>) -> Seq<
    Seq<CellView>,
>
    decreases paths.len(),
{
    if paths.len() == 0 || files.len() != paths.len() {
        Seq::empty()
    } else {
        blame_rows(paths.drop_last(), files.drop_last(), repo) + match files.last() {
            Some(f) => file_rows(paths.last(), f.hunks@, f.lines@, repo),
            None => Seq::empty(),
        }
    }
}

/// Extracts the `blame` table, for one path or for every file under the head.
pub struct BlameProvider {
    pub path_filter: Option<String>,
}

impl BlameProvider {
    pub fn new(path_filter: Option<String>) -> (r: Self)
        ensures
            r.path_filter == path_filter,
    {
        BlameProvider { path_filter }
    }

    pub fn table_name(&self) -> (r: &'static str)
        ensures
            r@ == "blame"@,
    {
        "blame"
    }

    /// One row per attributed line of a file, paired with the line's text.
    pub fn file_rows(&self, path: &str, f: &BlameFile, repo: &str) -> (r: Vec<Row>)
        ensures
            rows_view(r@) == file_rows(path@, f.hunks@, f.lines@, repo@),
    {
        let mut out: Vec<Row> = Vec::new();
        let mut i: usize = 0;
        assert(rows_view(out@) =~= file_rows(path@, f.hunks@.take(0), f.lines@, repo@));
        while i < f.hunks.len()
            invariant
                i <= f.hunks@.len(),
                rows_view(out@) == file_rows(path@, f.hunks@.take(i as int), f.lines@, repo@),
            decreases f.hunks@.len() - i,
        {
            let h = &f.hunks[i];
            assert(f.hunks@.take(i as int + 1).drop_last() =~= f.hunks@.take(i as int));
            let ghost before = rows_view(out@);
            let ghost all = hunk_rows(path@, *h, f.lines@, repo@);
            let orig_path = match &h.orig_path {
                Some(p) => p.as_str(),
                None => path,
            };
            let mut k: u32 = 0;
            while k < h.lines_in_hunk
                invariant
                    k <= h.lines_in_hunk,
                    all == hunk_rows(path@, *h, f.lines@, repo@),
                    orig_path@ == match h.orig_path {
                        Some(p) => p@,
                        None => path@,
                    },
                    rows_view(out@) == before + all.take(k as int),
                decreases h.lines_in_hunk - k,
            {
                let line_no: u64 = h.final_start_line as u64 + k as u64;
                let content = if line_no >= 1 && ((line_no - 1) as u128) < (f.lines.len() as u128) {
                    text(f.lines[(line_no - 1) as usize].as_str())
                } else {
                    Cell::Text(String::new())
                };
                let row: Row = vec![
                    text(path),
                    Cell::Integer(line_no as i64),
                    text(h.commit_id.as_str()),
                    Cell::Integer(h.orig_start_line as i64 + k as i64),
                    text(orig_path),
                    text(h.signature.name.as_str()),
                    text(h.signature.email.as_str()),
                    Cell::Text(format_utc_time(h.signature.when.seconds)),
                    content,
                    text(repo),
                ];
                assert(row_view(row) =~= all[k as int]);
                let ghost prev = out@;
                out.push(row);
                assert(rows_view(out@) =~= rows_view(prev).push(row_view(row)));
                assert(before + all.take(k as int + 1) =~= (before + all.take(k as int)).push(all[k as int]));
                k = k + 1;
            }
            assert(all.take(h.lines_in_hunk as int) =~= all);
            i = i + 1;
        }
        assert(f.hunks@.take(f.hunks@.len() as int) =~= f.hunks@);
        out
    }

    /// Blame rows of the filtered path, or of every blob under the head; a
    /// file that cannot be blamed adds no rows, while a failure to list the
    /// head's files fails.
    pub fn collect<R: RepoSource>(&self, repo: &mut R, path: &str) -> (r: Result<Vec<Row>, VcsqlError>)
        ensures
            self.path_filter is Some ==> r is Ok,
            r is Err ==> r->Err_0 is Git,
            r is Ok ==> exists|ps: Seq<Seq<char>>, fs: Seq<Option<BlameFile>>|
                ps.len() == fs.len() && (self.path_filter is Some ==> ps == seq![
                    self.path_filter->Some_0@,
                ]) && rows_view(r->Ok_0@) == #[trigger] blame_rows(ps, fs, path@),
    {
        let paths: Vec<String> = match &self.path_filter {
            Some(f) => vec![String::from_str(f.as_str())],
            None => match repo.head_blob_paths() {
                Ok(v) => v,
                Err(e) => return Err(VcsqlError::Git(e)),
            },
        };
        let ghost ps = paths@.map_values(|s: String| s@);
        let mut out: Vec<Row> = Vec::new();
        let ghost mut fs: Seq<Option<BlameFile>> = Seq::empty();
        let mut i: usize = 0;
        assert(rows_view(out@) =~= blame_rows(ps.take(0), fs, path@));
        while i < paths.len()
            invariant
                i <= paths@.len(),
                ps == paths@.map_values(|s: String| s@),
                fs.len() == i,
                rows_view(out@) == blame_rows(ps.take(i as int), fs, path@),
            decreases paths@.len() - i,
        {
            let p = paths[i].as_str();
            let got = repo.blame(p);
            let ghost before = out@;
            let ghost mut fi: Option<BlameFile> = None;
            match got {
                Some(f) => {
                    let mut more = self.file_rows(p, &f, path);
                    let ghost added = more@;
                    proof {
                        fi = Some(f);
                    }
                    out.append(&mut more);
                    assert(rows_view(out@) =~= rows_view(before) + rows_view(added));
                },
                None => {},
            }
            proof {
                let t = ps.take(i as int);
                assert(ps.take(i as int + 1) =~= t.push(p@));
                assert(t.push(p@).drop_last() =~= t);
                assert(fs.push(fi).drop_last() =~= fs);
                assert(rows_view(out@) =~= blame_rows(ps.take(i as int + 1), fs.push(fi), path@));
                fs = fs.push(fi);
            }
            i = i + 1;
        }
        assert(ps.take(paths@.len() as int) =~= ps);
        proof {
            if self.path_filter is Some {
                assert(ps =~= seq![self.path_filter->Some_0@]);
            }
        }
        Ok(out)
    }
}

} // verus!
