use uplink_rows::expand::{CsvRow, NAN_BITS};
use uplink_rows::json::Number;
use uplink_rows::table::{header, record, Cell};
use uplink_rows::time::Instant;

#[test]
fn header_names_the_columns_in_order() {
    assert_eq!(
        header(),
        vec![
            "message_id",
            "gateway_id",
            "received_at",
            "rx_lat",
            "rx_lng",
            "rssi",
            "snr",
            "rx_count",
            "satellites_used",
            "gps_lat",
            "gps_lng",
        ]
    );
}

#[test]
fn record_lays_the_cells_out_under_the_header() {
    let row = CsvRow {
        message_id: 42,
        gateway_id: "gw-1".to_string(),
        received_at: Some(Instant { secs: 1734093015, nanos: 5 }),
        rx_lat: Number::PosInt(10),
        rx_lng: Number::NegInt(-20),
        rssi: -80,
        snr: Number::Float(NAN_BITS),
        rx_count: 3,
        satellites_used: 7,
        gps_lat: Number::Float(1.0f64.to_bits()),
        gps_lng: Number::Float(2.0f64.to_bits()),
    };
    let cells = record(&row);
    assert_eq!(cells.len(), header().len());
    assert_eq!(
        cells,
        vec![
            Cell::Signed(42),
            Cell::Text("gw-1".to_string()),
            Cell::Time(Some(Instant { secs: 1734093015, nanos: 5 })),
            Cell::Real(Number::PosInt(10)),
            Cell::Real(Number::NegInt(-20)),
            Cell::Signed(-80),
            Cell::Real(Number::Float(0x7ff8_0000_0000_0000)),
            Cell::Unsigned(3),
            Cell::Unsigned(7),
            Cell::Real(Number::Float(0x3ff0000000000000)),
            Cell::Real(Number::Float(0x4000000000000000)),
        ]
    );
}

#[test]
fn record_keeps_a_missing_time_missing() {
    let row = CsvRow {
        message_id: -1,
        gateway_id: String::new(),
        received_at: None,
        rx_lat: Number::PosInt(0),
        rx_lng: Number::PosInt(0),
        rssi: 0,
        snr: Number::PosInt(0),
        rx_count: u64::MAX,
        satellites_used: u16::MAX,
        gps_lat: Number::PosInt(0),
        gps_lng: Number::PosInt(0),
    };
    let cells = record(&row);
    assert_eq!(cells[0], Cell::Signed(-1));
    assert_eq!(cells[1], Cell::Text(String::new()));
    assert_eq!(cells[2], Cell::Time(None));
    assert_eq!(cells[7], Cell::Unsigned(u64::MAX));
    assert_eq!(cells[8], Cell::Unsigned(65535));
}
