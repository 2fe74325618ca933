//! The table that the terminal shows: fixed headers and widths, and one row
//! of text cells per record, numbered from one.
use vstd::prelude::*;
use crate::decimal::{decimal_of, decimal_string};
use crate::ticker::Ticker;

verus! {

/// A rectangle of terminal cells.
#[derive(Clone, Copy, Debug, PartialEq, Eq, Structural)]
pub struct Rect {
    pub x: u16,
    pub y: u16,
    pub width: u16,
    pub height: u16,
}

impl Rect {
    /// The empty rectangle at the origin.
    pub fn zero() -> (r: Rect)
        ensures
            r == (Rect { x: 0, y: 0, width: 0, height: 0 }),
    {
        Rect { x: 0, y: 0, width: 0, height: 0 }
    }
}

/// Number of columns of the table.
pub const COLUMNS: usize = 7;

/// The column headers, left to right.
pub fn column_headers() -> (r: Vec<&'static str>)
    ensures
        r@.len() == COLUMNS,
        r@[0]@ == "index"@,
        r@[1]@ == "symbol"@,
        r@[2]@ == "usd"@,
        r@[3]@ == "1h"@,
        r@[4]@ == "24h"@,
        r@[5]@ == "7d"@,
        r@[6]@ == "24h volume"@,
{
    vec!["index", "symbol", "usd", "1h", "24h", "7d", "24h volume"]
}

/// The column widths in character cells, left to right.
pub fn column_widths() -> (r: Vec<u16>)
    ensures
        r@ == seq![6u16, 10u16, 10u16, 10u16, 10u16, 10u16, 15u16],
{
    let r = vec![6u16, 10u16, 10u16, 10u16, 10u16, 10u16, 15u16];
    assert(r@ =~= seq![6u16, 10u16, 10u16, 10u16, 10u16, 10u16, 15u16]);
    r
}

/// The texts of a row of cells.
pub open spec fn cells_of(row: Vec<String>) -> Seq<Seq<char>> {
    row@.map_values(|c: String| c@)
}

/// The row labelled `n` that shows the record `t`.
pub open spec fn row_spec(n: nat, t: Ticker) -> Seq<Seq<char>> {
    seq![
        decimal_of(n),
        t.symbol@,
        t.price_usd@,
        t.percent_change_1h@,
        t.percent_change_24h@,
        t.percent_change_7d@,
        t.volume_usd@,
    ]
}

/// The rows that show the records `ts`, labelled by position from one.
pub open spec fn rows_spec(ts: Seq<Ticker>) -> Seq<Seq<Seq<char>>> {
    Seq::new(ts.len(), |i: int| row_spec((i + 1) as nat, ts[i]))
}

/// The texts of the rows of a table.
pub open spec fn rows_view(rows: Seq<Vec<String>>) -> Seq<Seq<Seq<char>>> {
    rows.map_values(|row: Vec<String>| cells_of(row))
}

/// The row labelled `n` that shows `t`.
pub fn row_cells(n: u64, t: &Ticker) -> (r: Vec<String>)
    ensures
        cells_of(r) == row_spec(n as nat, *t),
{
    let r = vec![
        decimal_string(n),
        t.symbol.clone(),
        t.price_usd.clone(),
        t.percent_change_1h.clone(),
        t.percent_change_24h.clone(),
        t.percent_change_7d.clone(),
        t.volume_usd.clone(),
    ];
    assert(cells_of(r) =~= row_spec(n as nat, *t));
    r
}

/// One row per record, in the given order, labelled 1, 2, ... by position.
pub fn table_rows(tickers: &Vec<Ticker>) -> (r: Vec<Vec<String>>)
    ensures
        rows_view(r@) == rows_spec(tickers@),
{
    let mut rows: Vec<Vec<String>> = Vec::new();
    let mut i: usize = 0;
    while i < tickers.len()
        invariant
            i <= tickers@.len(),
            rows@.len() == i,
            forall|j: int| 0 <= j < i ==> cells_of(#[trigger] rows@[j]) == row_spec((j + 1) as nat, tickers@[j]),
        decreases tickers@.len() - i,
    {
        let row = row_cells(i as u64 + 1, &tickers[i]);
        rows.push(row);
        i += 1;
    }
    assert(rows_view(rows@) =~= rows_spec(tickers@));
    rows
}

/// Rendering labels the rows 1 to N by position, whatever the records hold:
/// two batches of one length get the same labels.
pub proof fn lemma_rows_numbered(a: Seq<Ticker>, b: Seq<Ticker>)
    requires
        a.len() == b.len(),
    ensures
        rows_spec(a).len() == a.len(),
        forall|i: int|
            0 <= i < a.len() ==> #[trigger] rows_spec(a)[i][0] == decimal_of((i + 1) as nat)
                && rows_spec(a)[i][0] == rows_spec(b)[i][0],
{
}

} // verus!
