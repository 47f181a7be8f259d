//! The layout of the output table: its header, and the cells of a row in
//! the order of the header.

use vstd::prelude::*;

use crate::expand::{CsvRow, CsvRowView};
use crate::json::Number;
use crate::time::Instant;

verus! {

/// The names of the columns, in their order.
pub open spec fn header_of() -> Seq<Seq<char>> {
    seq![
        "message_id"@,
        "gateway_id"@,
        "received_at"@,
        "rx_lat"@,
        "rx_lng"@,
        "rssi"@,
        "snr"@,
        "rx_count"@,
        "satellites_used"@,
        "gps_lat"@,
        "gps_lng"@,
    ]
}

/// The characters of each of a list of names.
pub open spec fn names_view(names: Seq<&'static str>) -> Seq<Seq<char>> {
    names.map_values(|name: &'static str| name@)
}

/// The header of the table: the names of its columns, in their order.
pub fn header() -> (r: Vec<&'static str>)
    ensures
        names_view(r@) == header_of(),
{
    let r = vec![
        "message_id",
        "gateway_id",
        "received_at",
        "rx_lat",
        "rx_lng",
        "rssi",
        "snr",
        "rx_count",
        "satellites_used",
        "gps_lat",
        "gps_lng",
    ];
    r
}

/// One cell of a row.
#[derive(Debug, PartialEq, Eq)]
pub enum Cell {
    Signed(i64),
    Unsigned(u64),
    Real(Number),
    Text(String),
    /// A time, absent where the row has none.
    Time(Option<Instant>),
}

/// The mathematical content of a [`Cell`].
pub enum CellView {
    Signed(i64),
    Unsigned(u64),
    Real(Number),
    Text(Seq<char>),
    Time(Option<Instant>),
}

impl View for Cell {
    type V = CellView;

    open spec fn view(&self) -> CellView {
        match self {
            Cell::Signed(v) => CellView::Signed(*v),
            Cell::Unsigned(v) => CellView::Unsigned(*v),
            Cell::Real(v) => CellView::Real(*v),
            Cell::Text(v) => CellView::Text(v@),
            Cell::Time(v) => CellView::Time(*v),
        }
    }
}

/// The content of a list of cells, cell by cell.
pub open spec fn cells_view(cells: Seq<Cell>) -> Seq<CellView> {
    cells.map_values(|cell: Cell| cell@)
}

/// The cells of a row, in the order of the header.
pub open spec fn record_of(row: CsvRowView) -> Seq<CellView> {
    seq![
        CellView::Signed(row.message_id),
        CellView::Text(row.gateway_id),
        CellView::Time(row.received_at),
        CellView::Real(row.rx_lat),
        CellView::Real(row.rx_lng),
        CellView::Signed(row.rssi),
        CellView::Real(row.snr),
        CellView::Unsigned(row.rx_count),
        CellView::Unsigned(row.satellites_used as u64),
        CellView::Real(row.gps_lat),
        CellView::Real(row.gps_lng),
    ]
}

/// Lays a row out as its cells, in the order of the header.
pub fn record(row: &CsvRow) -> (r: Vec<Cell>)
    ensures
        cells_view(r@) == record_of(row@),
{
    let r = vec![
        Cell::Signed(row.message_id),
        Cell::Text(row.gateway_id.clone()),
        Cell::Time(row.received_at),
        Cell::Real(row.rx_lat),
        Cell::Real(row.rx_lng),
        Cell::Signed(row.rssi),
        Cell::Real(row.snr),
        Cell::Unsigned(row.rx_count),
        Cell::Unsigned(row.satellites_used as u64),
        Cell::Real(row.gps_lat),
        Cell::Real(row.gps_lng),
    ];
    r
}

/// Every row has one cell for each column of the header.
pub proof fn lemma_record_fills_header(row: CsvRowView)
    ensures
        record_of(row).len() == header_of().len(),
{
}

} // verus!
