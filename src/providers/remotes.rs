//! The `remotes` table.
use vstd::prelude::*;
use crate::records::RemoteRecord;
use crate::rows::{Cell, CellView, Row, opt_text, opt_text_view, opt_view, row_view, text};

verus! {

/// `parts` joined with `sep` between consecutive parts.
pub open spec fn join(parts: Seq<Seq<char>>, sep: Seq<char>) -> Seq<char>
    decreases parts.len(),
{
    if parts.len() == 0 {
        Seq::empty()
    } else if parts.len() == 1 {
        parts[0]
    } else {
        join(parts.drop_last(), sep) + sep + parts.last()
    }
}

/// A list of refspecs as one text, null where there is none or it could
/// not be read.
pub open spec fn refspec_view(o: Option<Vec<String>>) -> CellView {
    match o {
        Some(v) => if v@.len() == 0 {
            CellView::Null
        } else {
            CellView::Text(join(v@.map_values(|s: String| s@), ", "@))
        },
        None => CellView::Null,
    }
}

pub open spec fn remote_row(r: RemoteRecord, repo: Seq<char>) -> Seq<CellView> {
    seq![
        CellView::Text(r.name@),
        opt_text_view(opt_view(r.url)),
        opt_text_view(opt_view(r.push_url)),
        refspec_view(r.fetch_refspecs),
        refspec_view(r.push_refspecs),
        CellView::Text(repo),
    ]
}

/// Joins `parts` with `sep`.
pub fn join_texts(parts: &Vec<String>, sep: &str) -> (r: String)
    ensures
        r@ == join(parts@.map_values(|s: String| s@), sep@),
{
    let ghost ps = parts@.map_values(|s: String| s@);
    let mut out = String::new();
    let mut i: usize = 0;
    while i < parts.len()
        invariant
            ps == parts@.map_values(|s: String| s@),
            i <= parts@.len(),
            out@ == join(ps.take(i as int), sep@),
        decreases parts@.len() - i,
    {
        assert(ps.take(i as int + 1).drop_last() =~= ps.take(i as int));
        if i > 0 {
            out.append(sep);
        }
        out.append(parts[i].as_str());
        i = i + 1;
        assert(out@ =~= join(ps.take(i as int), sep@));
    }
    assert(ps.take(parts@.len() as int) =~= ps);
    out
}

fn refspec_cell(o: &Option<Vec<String>>) -> (r: Cell)
    ensures
        r@ == refspec_view(*o),
{
    match o {
        Some(v) => if v.len() == 0 {
            Cell::Null
        } else {
            Cell::Text(join_texts(v, ", "))
        },
        None => Cell::Null,
    }
}

/// Extracts the `remotes` table.
pub struct RemotesProvider;

impl RemotesProvider {
    pub fn table_name(&self) -> (r: &'static str)
        ensures
            r@ == "remotes"@,
    {
        "remotes"
    }

    /// One row per remote, in the order given.
    pub fn rows(&self, remotes: &Vec<RemoteRecord>, repo: &str) -> (r: Vec<Row>)
        ensures
            r@.len() == remotes@.len(),
            forall|i: int| 0 <= i < r@.len() ==> row_view(#[trigger] r@[i]) == remote_row(remotes@[i], repo@),
    {
        let mut out: Vec<Row> = Vec::new();
        let mut i: usize = 0;
        while i < remotes.len()
            invariant
                i <= remotes@.len(),
                out@.len() == i,
                forall|k: int| 0 <= k < i ==> row_view(#[trigger] out@[k]) == remote_row(remotes@[k], repo@),
            decreases remotes@.len() - i,
        {
            let m = &remotes[i];
            let row: Row = vec![
                text(m.name.as_str()),
                opt_text(&m.url),
                opt_text(&m.push_url),
                refspec_cell(&m.fetch_refspecs),
                refspec_cell(&m.push_refspecs),
                text(repo),
            ];
            assert(row_view(row) =~= remote_row(remotes@[i as int], repo@));
            out.push(row);
            i = i + 1;
        }
        out
    }
}

} // verus!
