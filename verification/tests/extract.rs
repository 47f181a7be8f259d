use uplink_rows::expand::{expand, CsvRow, NAN_BITS};
use uplink_rows::extract::{dataset, expand_all, extract, RawRecord};
use uplink_rows::json::{Json, Member, Number};
use uplink_rows::time::Instant;

fn text(s: &str) -> Json {
    Json::Text(s.to_string())
}

fn pos(v: u64) -> Json {
    Json::Number(Number::PosInt(v))
}

fn neg(v: i64) -> Json {
    Json::Number(Number::NegInt(v))
}

fn float(v: f64) -> Json {
    Json::Number(Number::Float(v.to_bits()))
}

fn obj(members: Vec<(&str, Json)>) -> Json {
    let mut out = Vec::new();
    for (key, value) in members {
        out.push(Member { key: key.to_string(), value });
    }
    Json::Object(out)
}

fn payload() -> Json {
    obj(vec![
        ("latitude", float(1.0)),
        ("longitude", float(2.0)),
        ("gpsUsedSats", pos(7)),
        ("rxCount", pos(3)),
    ])
}

fn gateway(ids: Json, location: Json) -> Json {
    obj(vec![
        ("gateway_ids", ids),
        ("received_at", text("2024-12-13T12:30:15Z")),
        ("rssi", neg(-80)),
        ("snr", float(5.5)),
        ("location", location),
    ])
}

fn place() -> Json {
    obj(vec![("latitude", pos(10)), ("longitude", pos(20))])
}

fn named(id: &str) -> Json {
    obj(vec![("gateway_id", text(id))])
}

fn uplink(receptions: Vec<Json>) -> Json {
    obj(vec![(
        "uplink_message",
        obj(vec![("decoded_payload", payload()), ("rx_metadata", Json::Array(receptions))]),
    )])
}

fn record(id: i64, document: Json) -> RawRecord {
    RawRecord { id, received_at: Instant { secs: 1734093016, nanos: 0 }, document }
}

fn row(message_id: i64, gateway_id: &str) -> CsvRow {
    CsvRow {
        message_id,
        gateway_id: gateway_id.to_string(),
        received_at: Some(Instant { secs: 1734093015, nanos: 0 }),
        rx_lat: Number::PosInt(10),
        rx_lng: Number::PosInt(20),
        rssi: -80,
        snr: Number::Float(5.5f64.to_bits()),
        rx_count: 3,
        satellites_used: 7,
        gps_lat: Number::Float(1.0f64.to_bits()),
        gps_lng: Number::Float(2.0f64.to_bits()),
    }
}

fn key(r: &CsvRow) -> (i64, String) {
    (r.message_id, r.gateway_id.clone())
}

#[test]
fn one_located_gateway_behind_an_empty_slot_gives_one_row() {
    let records = vec![record(17, uplink(vec![Json::Null, gateway(named("gw-1"), place())]))];
    let rows = extract(&records);
    assert_eq!(rows, vec![row(17, "gw-1")]);
    let only = &rows[0];
    assert_eq!(only.message_id, 17);
    assert_eq!(only.gateway_id, "gw-1");
    assert_eq!(only.rssi, -80);
    assert_eq!(only.snr, Number::Float(5.5f64.to_bits()));
    assert_eq!(only.rx_count, 3);
    assert_eq!(only.satellites_used, 7);
    assert_eq!(only.gps_lat, Number::Float(1.0f64.to_bits()));
    assert_eq!(only.gps_lng, Number::Float(2.0f64.to_bits()));
    assert_eq!(only.rx_lat, Number::PosInt(10));
    assert_eq!(only.rx_lng, Number::PosInt(20));
}

#[test]
fn gateway_with_null_location_gives_no_row() {
    let records = vec![record(17, uplink(vec![gateway(named("gw-1"), Json::Null)]))];
    assert_eq!(dataset(&records).len(), 1);
    assert_eq!(extract(&records), vec![]);
}

#[test]
fn gateway_without_gateway_id_is_listed_as_anonymous() {
    let ids = obj(vec![("eui", text("A1B2C3D4"))]);
    let records = vec![record(17, uplink(vec![gateway(ids, place())]))];
    assert_eq!(extract(&records), vec![row(17, "anonymous")]);
}

#[test]
fn missing_snr_is_written_as_not_a_number() {
    let entry = obj(vec![
        ("gateway_ids", named("gw-1")),
        ("received_at", text("2024-12-13T12:30:15Z")),
        ("rssi", neg(-80)),
        ("location", place()),
    ]);
    let rows = extract(&vec![record(1, uplink(vec![entry]))]);
    assert_eq!(rows.len(), 1);
    assert_eq!(rows[0].snr, Number::Float(NAN_BITS));
}

#[test]
fn records_that_do_not_decode_are_passed_over() {
    let records = vec![
        record(1, obj(vec![("join_accept", obj(vec![]))])),
        record(2, uplink(vec![gateway(named("gw-1"), place())])),
        record(3, Json::Null),
        record(4, obj(vec![("uplink_message", obj(vec![("decoded_payload", payload())]))])),
        record(5, uplink(vec![gateway(named("gw-2"), place()), gateway(named("gw-3"), place())])),
        record(6, uplink(vec![text("gw-4")])),
    ];
    let messages = dataset(&records);
    let ids: Vec<i64> = messages.iter().map(|m| m.0).collect();
    assert_eq!(ids, vec![2, 5]);
    assert_eq!(extract(&records), vec![row(2, "gw-1"), row(5, "gw-2"), row(5, "gw-3")]);
}

#[test]
fn record_without_wrapper_contributes_no_row() {
    let good = || record(2, uplink(vec![gateway(named("gw-1"), place())]));
    let bare = || record(9, obj(vec![("decoded_payload", payload())]));
    assert_eq!(extract(&vec![bare()]), vec![]);
    assert_eq!(extract(&vec![good(), bare()]), extract(&vec![good()]));
    assert_eq!(extract(&vec![bare(), good(), bare()]), extract(&vec![good()]));
}

#[test]
fn extract_is_dataset_then_expand() {
    let records = vec![
        record(2, uplink(vec![gateway(named("gw-1"), place()), Json::Null])),
        record(3, Json::Bool(true)),
        record(5, uplink(vec![gateway(named("gw-2"), Json::Null), gateway(named("gw-3"), place())])),
    ];
    let messages = dataset(&records);
    assert_eq!(expand_all(&messages), extract(&records));
    let mut one_by_one = Vec::new();
    for (id, message) in &messages {
        one_by_one.extend(expand(*id, &message.uplink_message));
    }
    assert_eq!(one_by_one, extract(&records));
}

#[test]
fn extract_of_no_records_is_empty() {
    assert_eq!(extract(&Vec::new()), vec![]);
    assert_eq!(dataset(&Vec::new()).len(), 0);
    assert_eq!(expand_all(&Vec::new()), vec![]);
}

#[test]
fn extracting_twice_gives_the_same_rows() {
    let records = vec![
        record(2, uplink(vec![gateway(named("gw-1"), place())])),
        record(5, uplink(vec![gateway(named("gw-2"), place())])),
    ];
    assert_eq!(extract(&records), extract(&records));
}

#[test]
fn order_of_records_changes_only_the_order_of_rows() {
    let a = || record(2, uplink(vec![gateway(named("gw-1"), place())]));
    let b = || record(5, uplink(vec![gateway(named("gw-2"), place()), gateway(named("gw-3"), place())]));
    let c = || record(7, Json::Null);
    let forward = extract(&vec![a(), b(), c()]);
    let backward = extract(&vec![c(), b(), a()]);
    assert_eq!(forward, vec![row(2, "gw-1"), row(5, "gw-2"), row(5, "gw-3")]);
    assert_eq!(backward, vec![row(5, "gw-2"), row(5, "gw-3"), row(2, "gw-1")]);
    let mut left: Vec<(i64, String)> = forward.iter().map(key).collect();
    let mut right: Vec<(i64, String)> = backward.iter().map(key).collect();
    left.sort();
    right.sort();
    assert_eq!(left, right);
}
