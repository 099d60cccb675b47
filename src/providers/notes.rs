//! The `notes` table.
use vstd::prelude::*;
use crate::error::VcsqlError;
use crate::records::{NoteRecord, RefRecord};
use crate::rows::{CellView, Row, row_view, rows_view, text};
use crate::source::RepoSource;
use crate::text::{is_prefix, starts_with};

verus! {

pub open spec fn note_row(notes_ref: Seq<char>, n: NoteRecord, repo: Seq<char>) -> Seq<CellView> {
    seq![
        CellView::Text(notes_ref),
        CellView::Text(n.target_id@),
        CellView::Text(n.note_id@),
        CellView::Text(n.content@),
        CellView::Text(repo),
    ]
}

/// The rows of one notes reference.
pub open spec fn notes_of(notes_ref: Seq<char>, ns: Seq<NoteRecord>, repo: Seq<char>) -> Seq<Seq<CellView>> {
    Seq::new(ns.len(), |i: int| note_row(notes_ref, ns[i], repo))
}

/// The full names of the notes references among `refs`, in order.
pub open spec fn notes_refs(refs: Seq<RefRecord>) -> Seq<Seq<char>>
    decreases refs.len(),
{
    if refs.len() == 0 {
        Seq::empty()
    } else if is_prefix("refs/notes/"@, refs.last().full_name@) {
        notes_refs(refs.drop_last()).push(refs.last().full_name@)
    } else {
        notes_refs(refs.drop_last())
    }
}

/// The rows of the notes of each of `names`, in order.
pub open spec fn all_notes_rows(names: Seq<Seq<char>>, lists: Seq<Seq<NoteRecord>>, repo: Seq<char>) -> Seq<
    Seq<CellView>,
>
    decreases names.len(),
{
    if names.len() == 0 || lists.len() != names.len() {
        Seq::empty()
    } else {
        all_notes_rows(names.drop_last(), lists.drop_last(), repo) + notes_of(names.last(), lists.last(), repo)
    }
}

/// Extracts the `notes` table.
pub struct NotesProvider;

impl NotesProvider {
    pub fn table_name(&self) -> (r: &'static str)
        ensures
            r@ == "notes"@,
    {
        "notes"
    }

    /// One row per note of one notes reference, in the order given.
    pub fn rows(&self, notes_ref: &str, notes: &Vec<NoteRecord>, repo: &str) -> (r: Vec<Row>)
        ensures
            rows_view(r@) == notes_of(notes_ref@, notes@, repo@),
    {
        let mut out: Vec<Row> = Vec::new();
        let mut i: usize = 0;
        while i < notes.len()
            invariant
                i <= notes@.len(),
                out@.len() == i,
                forall|k: int| 0 <= k < i ==> row_view(#[trigger] out@[k]) == note_row(notes_ref@, notes@[k], repo@),
            decreases notes@.len() - i,
        {
            let n = &notes[i];
            let row: Row = vec![
                text(notes_ref),
                text(n.target_id.as_str()),
                text(n.note_id.as_str()),
                text(n.content.as_str()),
                text(repo),
            ];
            assert(row_view(row) =~= note_row(notes_ref@, notes@[i as int], repo@));
            out.push(row);
            i = i + 1;
        }
        assert(rows_view(out@) =~= notes_of(notes_ref@, notes@, repo@));
        out
    }

    /// The notes of every notes reference, references in the order they
    /// come; a failure to list references fails.
    pub fn collect<R: RepoSource>(&self, repo: &mut R, path: &str) -> (r: Result<Vec<Row>, VcsqlError>)
        ensures
            match r {
                Ok(rows) => exists|refs: Seq<RefRecord>, lists: Seq<Seq<NoteRecord>>|
                    lists.len() == notes_refs(refs).len() && rows_view(rows@) == #[trigger] all_notes_rows(
                        notes_refs(refs),
                        lists,
                        path@,
                    ),
                Err(e) => e is Git,
            },
    {
        let refs = match repo.references() {
            Ok(v) => v,
            Err(e) => return Err(VcsqlError::Git(e)),
        };
        let prefix = "refs/notes/";
        let mut out: Vec<Row> = Vec::new();
        let ghost mut lists: Seq<Seq<NoteRecord>> = Seq::empty();
        let mut i: usize = 0;
        assert(refs@.take(0) =~= Seq::<RefRecord>::empty());
        assert(rows_view(out@) =~= all_notes_rows(notes_refs(refs@.take(0)), lists, path@));
        while i < refs.len()
            invariant
                i <= refs@.len(),
                prefix@ == "refs/notes/"@,
                lists.len() == notes_refs(refs@.take(i as int)).len(),
                rows_view(out@) == all_notes_rows(notes_refs(refs@.take(i as int)), lists, path@),
            decreases refs@.len() - i,
        {
            let name = refs[i].full_name.as_str();
            assert(refs@.take(i as int + 1).drop_last() =~= refs@.take(i as int));
            if starts_with(name, prefix) {
                let notes = repo.notes(name);
                let mut more = self.rows(name, &notes, path);
                let ghost before = out@;
                let ghost added = more@;
                let ghost names = notes_refs(refs@.take(i as int));
                out.append(&mut more);
                proof {
                    assert(rows_view(out@) =~= rows_view(before) + rows_view(added));
                    assert(names.push(name@).drop_last() =~= names);
                    assert(lists.push(notes@).drop_last() =~= lists);
                    lists = lists.push(notes@);
                }
            }
            i = i + 1;
        }
        assert(refs@.take(refs@.len() as int) =~= refs@);
        Ok(out)
    }
}

} // verus!
