//! Rows as the relational store receives them.
use vstd::prelude::*;

verus! {

/// One value of a row: booleans are stored as the integers 0 and 1.
#[derive(Debug)]
pub enum Cell {
    Null,
    Integer(i64),
    Text(String),
}

/// The mathematical value of a cell.
pub enum CellView {
    Null,
    Integer(int),
    Text(Seq<char>),
}

impl View for Cell {
    type V = CellView;

    open spec fn view(&self) -> CellView {
        match self {
            Cell::Null => CellView::Null,
            Cell::Integer(i) => CellView::Integer(*i as int),
            Cell::Text(s) => CellView::Text(s@),
        }
    }
}

pub type Row = Vec<Cell>;

pub open spec fn row_view(r: Row) -> Seq<CellView> {
    r@.map_values(|c: Cell| c@)
}

pub open spec fn rows_view(rs: Seq<Row>) -> Seq<Seq<CellView>> {
    rs.map_values(|r: Row| row_view(r))
}

pub open spec fn flag_view(b: bool) -> CellView {
    CellView::Integer(if b { 1 } else { 0 })
}

pub open spec fn text_view(s: Seq<char>) -> CellView {
    CellView::Text(s)
}

pub open spec fn opt_text_view(s: Option<Seq<char>>) -> CellView {
    match s {
        Some(t) => CellView::Text(t),
        None => CellView::Null,
    }
}

pub open spec fn opt_view(s: Option<String>) -> Option<Seq<char>> {
    match s {
        Some(t) => Some(t@),
        None => None,
    }
}

/// A boolean column holds 0 or 1.
pub open spec fn is_flag(c: CellView) -> bool {
    c == CellView::Integer(0) || c == CellView::Integer(1)
}

/// A text cell.
pub fn text(s: &str) -> (r: Cell)
    ensures
        r@ == text_view(s@),
{
    Cell::Text(String::from_str(s))
}

/// A boolean as the integer 0 or 1.
pub fn flag(b: bool) -> (r: Cell)
    ensures
        r@ == flag_view(b),
        is_flag(r@),
{
    Cell::Integer(if b { 1 } else { 0 })
}

/// An optional text, null where absent.
pub fn opt_text(s: &Option<String>) -> (r: Cell)
    ensures
        r@ == opt_text_view(opt_view(*s)),
{
    match s {
        Some(t) => Cell::Text(String::from_str(t.as_str())),
        None => Cell::Null,
    }
}

/// A count.
pub fn count(n: u64) -> (r: Cell)
    requires
        n <= i64::MAX,
    ensures
        r@ == CellView::Integer(n as int),
{
    Cell::Integer(n as i64)
}

/// A count as stored: counts beyond the integer column's range saturate.
pub open spec fn count_view(n: nat) -> CellView {
    if n <= i64::MAX {
        CellView::Integer(n as int)
    } else {
        CellView::Integer(i64::MAX as int)
    }
}

/// A length or position.
pub fn count_cell(n: usize) -> (r: Cell)
    ensures
        r@ == count_view(n as nat),
{
    if (n as u128) <= (i64::MAX as u128) {
        Cell::Integer(n as i64)
    } else {
        Cell::Integer(i64::MAX)
    }
}

} // verus!
