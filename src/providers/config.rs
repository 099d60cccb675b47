//! The `config` table: merged configuration entries with decomposed keys.
use vstd::prelude::*;
use crate::records::{ConfigEntry, ConfigLevel};
use crate::rows::{Cell, CellView, Row, opt_text_view, row_view, text, opt_text};
use crate::text::{find_first, find_first_last, find_last, lemma_find_first_bounds, lemma_find_last_bounds, slice_text};

verus! {

/// A dotted configuration name split into section, subsection and key:
/// one part gives the section alone with an empty key; two give section and
/// key; with more, the first part is the section, the last the key, and all
/// between, dots included, the subsection.
pub open spec fn config_parts(s: Seq<char>) -> (Seq<char>, Option<Seq<char>>, Seq<char>) {
    let f = find_first(s, '.');
    let l = find_last(s, '.');
    if f == -1 {
        (s, None, Seq::empty())
    } else if f == l {
        (s.take(f), None, s.skip(f + 1))
    } else {
        (s.take(f), Some(s.subrange(f + 1, l)), s.skip(l + 1))
    }
}

/// Splits a dotted configuration name into section, optional subsection and key.
pub fn parse_config_name(name: &str) -> (r: (String, Option<String>, String))
    ensures
        r.0@ == config_parts(name@).0,
        match r.1 {
            Some(sub) => config_parts(name@).1 == Some(sub@),
            None => config_parts(name@).1 is None,
        },
        r.2@ == config_parts(name@).2,
{
    proof {
        lemma_find_first_bounds(name@, '.');
        lemma_find_last_bounds(name@, '.');
    }
    let n = name.unicode_len();
    let (first, last) = find_first_last(name, '.');
    match (first, last) {
        (Some(f), Some(l)) => {
            if f == l {
                (slice_text(name, 0, f), None, slice_text(name, f + 1, n))
            } else {
                assert(f < l);
                (slice_text(name, 0, f), Some(slice_text(name, f + 1, l)), slice_text(name, l + 1, n))
            }
        },
        _ => {
            assert(find_first(name@, '.') == -1 ==> find_last(name@, '.') == -1);
            (String::from_str(name), None, String::new())
        },
    }
}

/// The name of a configuration scope.
pub fn level_name(level: ConfigLevel) -> (r: &'static str)
    ensures
        r@ == level_text(level),
{
    match level {
        ConfigLevel::ProgramData => "programdata",
        ConfigLevel::System => "system",
        ConfigLevel::Xdg => "xdg",
        ConfigLevel::Global => "global",
        ConfigLevel::Local => "local",
        ConfigLevel::Worktree => "worktree",
        ConfigLevel::App => "app",
        ConfigLevel::Highest => "highest",
    }
}

pub open spec fn level_text(level: ConfigLevel) -> Seq<char> {
    match level {
        ConfigLevel::ProgramData => "programdata"@,
        ConfigLevel::System => "system"@,
        ConfigLevel::Xdg => "xdg"@,
        ConfigLevel::Global => "global"@,
        ConfigLevel::Local => "local"@,
        ConfigLevel::Worktree => "worktree"@,
        ConfigLevel::App => "app"@,
        ConfigLevel::Highest => "highest"@,
    }
}

/// The row of an entry that has both a name and a value.
pub open spec fn config_row(level: ConfigLevel, name: Seq<char>, value: Seq<char>, repo: Seq<char>) -> Seq<CellView> {
    let (section, sub, key) = config_parts(name);
    seq![
        CellView::Text(level_text(level)),
        CellView::Text(section),
        opt_text_view(sub),
        CellView::Text(key),
        CellView::Text(name),
        CellView::Text(value),
        CellView::Text(repo),
    ]
}

/// Rows of the entries that have both a name and a value, in order.
pub open spec fn config_rows(es: Seq<ConfigEntry>, repo: Seq<char>) -> Seq<Seq<CellView>>
    decreases es.len(),
{
    if es.len() == 0 {
        Seq::empty()
    } else {
        let e = es.last();
        let before = config_rows(es.drop_last(), repo);
        match (e.name, e.value) {
            (Some(n), Some(v)) => before.push(config_row(e.level, n@, v@, repo)),
            _ => before,
        }
    }
}

/// Extracts the `config` table.
pub struct ConfigProvider;

impl ConfigProvider {
    pub fn table_name(&self) -> (r: &'static str)
        ensures
            r@ == "config"@,
    {
        "config"
    }

    /// One row per entry with a name and a value, tagged with its scope.
    pub fn rows(&self, entries: &Vec<ConfigEntry>, repo: &str) -> (r: Vec<Row>)
        ensures
            r@.map_values(|x: Row| row_view(x)) == config_rows(entries@, repo@),
    {
        let mut out: Vec<Row> = Vec::new();
        let mut i: usize = 0;
        while i < entries.len()
            invariant
                i <= entries@.len(),
                out@.map_values(|x: Row| row_view(x)) == config_rows(entries@.take(i as int), repo@),
            decreases entries@.len() - i,
        {
            let e = &entries[i];
            assert(entries@.take(i as int + 1).drop_last() =~= entries@.take(i as int));
            match (&e.name, &e.value) {
                (Some(n), Some(v)) => {
                    let (section, sub, key) = parse_config_name(n.as_str());
                    let row: Row = vec![
                        text(level_name(e.level)),
                        Cell::Text(section),
                        opt_text(&sub),
                        Cell::Text(key),
                        text(n.as_str()),
                        text(v.as_str()),
                        text(repo),
                    ];
                    assert(row_view(row) =~= config_row(e.level, n@, v@, repo@));
                    out.push(row);
                    assert(out@.map_values(|x: Row| row_view(x)) =~= config_rows(entries@.take(i as int + 1), repo@));
                },
                _ => {},
            }
            i = i + 1;
        }
        assert(entries@.take(entries@.len() as int) =~= entries@);
        out
    }
}

} // verus!
