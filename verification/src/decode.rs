//! The schema decoder: from a stored document to an uplink message.
//!
//! A document decodes where it has the shape below, and is otherwise absent;
//! there is no error to report. Members that the shape does not name are
//! passed over. A field named by two members of one object, under one name
//! or under both of its names, makes the document absent.
//!
//! ```text
//! { "uplink_message": {
//!     "decoded_payload": {
//!         "latitude": number, "longitude": number,
//!         "gps_satellites" | "gpsUsedSats": whole number in u16,
//!         "rx_count" | "rxCount": whole number in u64 },
//!     "rx_metadata": [ null | {
//!         "gateway_ids": { "eui"?: text, "gateway_id"?: text },
//!         "received_at"?: time text,
//!         "rssi": whole number in i64,
//!         "snr"?: number,
//!         "location"?: { "latitude": number, "longitude": number,
//!                        "altitude"?: number } }, ... ] } }
//! ```
//!
//! A field marked `?` may be left out or hold `null`.

use vstd::prelude::*;

use crate::json::{
    find, items_view, lemma_view_parts, lookup, members_view, Json, JsonView, Lookup, LookupView, Member,
    MemberView, Number,
};
use crate::model::{
    opt_view, slots_view, Gateway, GatewayId, GatewayIdView, GatewayView, Location, LoraPayload,
    Uplink, UplinkMessage, UplinkMessageView, UplinkView,
};
use crate::time::{instant_of, parse_instant, Instant};

verus! {

/// What a field that has to be there decodes to: what `read` makes of the
/// value of the one member that carries its name.
pub open spec fn required<T>(found: LookupView, read: spec_fn(JsonView) -> Option<T>) -> Option<T> {
    match found {
        LookupView::Found(value) => read(value),
        _ => None,
    }
}

/// What a field that may be left out decodes to. The outer `None` says that
/// the object does not decode: the field is named twice, or `read` rejects
/// its value. `Some(None)` says that the field is left out: no member
/// carries its name, or the one that does holds `null`.
pub open spec fn optional<T>(found: LookupView, read: spec_fn(JsonView) -> Option<T>) -> Option<
    Option<T>,
> {
    match found {
        LookupView::Missing => Some(None),
        LookupView::Found(value) => if value is Null {
            Some(None)
        } else {
            match read(value) {
                Some(t) => Some(Some(t)),
                None => None,
            }
        },
        LookupView::Repeated => None,
    }
}

/// A number of any form.
pub open spec fn real_of(value: JsonView) -> Option<Number> {
    match value {
        JsonView::Number(n) => Some(n),
        _ => None,
    }
}

/// A whole number within `u16`.
pub open spec fn u16_of(value: JsonView) -> Option<u16> {
    match value {
        JsonView::Number(n) => n.to_u16(),
        _ => None,
    }
}

/// A whole number within `u64`.
pub open spec fn u64_of(value: JsonView) -> Option<u64> {
    match value {
        JsonView::Number(n) => n.to_u64(),
        _ => None,
    }
}

/// A whole number within `i64`.
pub open spec fn i64_of(value: JsonView) -> Option<i64> {
    match value {
        JsonView::Number(n) => n.to_i64(),
        _ => None,
    }
}

/// A text.
pub open spec fn text_of(value: JsonView) -> Option<Seq<char>> {
    match value {
        JsonView::Text(t) => Some(t),
        _ => None,
    }
}

/// A text that the time parser reads as an instant.
pub open spec fn time_of(value: JsonView) -> Option<Instant> {
    match value {
        JsonView::Text(t) => instant_of(t),
        _ => None,
    }
}

/// The sensor payload that `value` decodes to.
pub open spec fn payload_of(value: JsonView) -> Option<LoraPayload> {
    match value {
        JsonView::Object(m) => {
            let latitude = required(lookup(m, "latitude"@, None), |v: JsonView| real_of(v));
            let longitude = required(lookup(m, "longitude"@, None), |v: JsonView| real_of(v));
            let gps_satellites = required(
                lookup(m, "gps_satellites"@, Some("gpsUsedSats"@)),
                |v: JsonView| u16_of(v),
            );
            let rx_count = required(lookup(m, "rx_count"@, Some("rxCount"@)), |v: JsonView| u64_of(v));
            if latitude is Some && longitude is Some && gps_satellites is Some && rx_count is Some {
                Some(
                    LoraPayload {
                        latitude: latitude->0,
                        longitude: longitude->0,
                        gps_satellites: gps_satellites->0,
                        rx_count: rx_count->0,
                    },
                )
            } else {
                None
            }
        },
        _ => None,
    }
}

/// The gateway position that `value` decodes to.
pub open spec fn location_of(value: JsonView) -> Option<Location> {
    match value {
        JsonView::Object(m) => {
            let latitude = required(lookup(m, "latitude"@, None), |v: JsonView| real_of(v));
            let longitude = required(lookup(m, "longitude"@, None), |v: JsonView| real_of(v));
            let altitude = optional(lookup(m, "altitude"@, None), |v: JsonView| real_of(v));
            if latitude is Some && longitude is Some && altitude is Some {
                Some(
                    Location {
                        latitude: latitude->0,
                        longitude: longitude->0,
                        altitude: altitude->0,
                    },
                )
            } else {
                None
            }
        },
        _ => None,
    }
}

/// The gateway names that `value` decodes to.
pub open spec fn gateway_ids_of(value: JsonView) -> Option<GatewayIdView> {
    match value {
        JsonView::Object(m) => {
            let eui = optional(lookup(m, "eui"@, None), |v: JsonView| text_of(v));
            let gateway_id = optional(lookup(m, "gateway_id"@, None), |v: JsonView| text_of(v));
            if eui is Some && gateway_id is Some {
                Some(GatewayIdView { eui: eui->0, gateway_id: gateway_id->0 })
            } else {
                None
            }
        },
        _ => None,
    }
}

/// The reception report that the members of a list entry decode to, given
/// the reception time that was read from them.
pub open spec fn gateway_at(members: Seq<MemberView>, received_at: Option<Instant>) -> Option<
    GatewayView,
> {
    let gateway_ids = required(lookup(members, "gateway_ids"@, None), |v: JsonView| gateway_ids_of(v));
    let rssi = required(lookup(members, "rssi"@, None), |v: JsonView| i64_of(v));
    let snr = optional(lookup(members, "snr"@, None), |v: JsonView| real_of(v));
    let location = optional(lookup(members, "location"@, None), |v: JsonView| location_of(v));
    if gateway_ids is Some && rssi is Some && snr is Some && location is Some {
        Some(
            GatewayView {
                gateway_ids: gateway_ids->0,
                received_at,
                rssi: rssi->0,
                snr: snr->0,
                location: location->0,
            },
        )
    } else {
        None
    }
}

/// The reception report that `value` decodes to.
pub open spec fn gateway_of(value: JsonView) -> Option<GatewayView> {
    match value {
        JsonView::Object(members) => {
            match optional(lookup(members, "received_at"@, None), |v: JsonView| time_of(v)) {
                Some(received_at) => gateway_at(members, received_at),
                None => None,
            }
        },
        _ => None,
    }
}

/// What one entry of a reception list decodes to: an empty slot for `null`,
/// else a reception report. The outer `None` says that the entry does not
/// decode.
pub open spec fn slot_of(value: JsonView) -> Option<Option<GatewayView>> {
    if value is Null {
        Some(None)
    } else {
        match gateway_of(value) {
            Some(g) => Some(Some(g)),
            None => None,
        }
    }
}

/// The reception list that `value` decodes to: an array whose entries all
/// decode, slot for slot.
pub open spec fn receptions_of(value: JsonView) -> Option<Seq<Option<GatewayView>>> {
    match value {
        JsonView::Array(items) => if forall|i: int|
            0 <= i < items.len() ==> (#[trigger] slot_of(items[i])) is Some {
            Some(items.map_values(|item: JsonView| slot_of(item)->0))
        } else {
            None
        },
        _ => None,
    }
}

/// The uplink message that `value` decodes to.
pub open spec fn message_of(value: JsonView) -> Option<UplinkMessageView> {
    match value {
        JsonView::Object(m) => {
            let decoded_payload = required(
                lookup(m, "decoded_payload"@, None),
                |v: JsonView| payload_of(v),
            );
            let rx_metadata = required(lookup(m, "rx_metadata"@, None), |v: JsonView| receptions_of(v));
            if decoded_payload is Some && rx_metadata is Some {
                Some(
                    UplinkMessageView {
                        decoded_payload: decoded_payload->0,
                        rx_metadata: rx_metadata->0,
                    },
                )
            } else {
                None
            }
        },
        _ => None,
    }
}

/// The uplink that a stored document decodes to, or `None` where the
/// document does not have the shape of one.
pub open spec fn uplink_of(doc: JsonView) -> Option<UplinkView> {
    match doc {
        JsonView::Object(members) => {
            match required(lookup(members, "uplink_message"@, None), |v: JsonView| message_of(v)) {
                Some(uplink_message) => Some(UplinkView { uplink_message }),
                None => None,
            }
        },
        _ => None,
    }
}

/// Decodes a number of any form.
pub fn decode_real(value: &Json) -> (r: Option<Number>)
    ensures
        r == real_of(value@),
{
    match value {
        Json::Number(n) => Some(*n),
        _ => None,
    }
}

/// Decodes a whole number within `u16`.
pub fn decode_u16(value: &Json) -> (r: Option<u16>)
    ensures
        r == u16_of(value@),
{
    match value {
        Json::Number(n) => n.as_u16(),
        _ => None,
    }
}

/// Decodes a whole number within `u64`.
pub fn decode_u64(value: &Json) -> (r: Option<u64>)
    ensures
        r == u64_of(value@),
{
    match value {
        Json::Number(n) => n.as_u64(),
        _ => None,
    }
}

/// Decodes a whole number within `i64`.
pub fn decode_i64(value: &Json) -> (r: Option<i64>)
    ensures
        r == i64_of(value@),
{
    match value {
        Json::Number(n) => n.as_i64(),
        _ => None,
    }
}

/// Decodes a text.
pub fn decode_text(value: &Json) -> (r: Option<String>)
    ensures
        opt_view(r) == text_of(value@),
{
    match value {
        Json::Text(t) => Some(t.clone()),
        _ => None,
    }
}

/// Decodes a reception time: a text that the time parser reads as an instant.
pub fn decode_time(value: &Json) -> (r: Option<Instant>)
    ensures
        r == time_of(value@),
{
    match value {
        Json::Text(t) => parse_instant(t.as_str()),
        _ => None,
    }
}

/// Decodes a sensor payload.
pub fn decode_payload(value: &Json) -> (r: Option<LoraPayload>)
    ensures
        r == payload_of(value@),
{
    let members = match value {
        Json::Object(members) => members,
        _ => return None,
    };
    proof {
        lemma_view_parts(*value);
    }
    let latitude = match find(members, "latitude", None) {
        Lookup::Found(v) => decode_real(v)?,
        _ => return None,
    };
    let longitude = match find(members, "longitude", None) {
        Lookup::Found(v) => decode_real(v)?,
        _ => return None,
    };
    let gps_satellites = match find(members, "gps_satellites", Some("gpsUsedSats")) {
        Lookup::Found(v) => decode_u16(v)?,
        _ => return None,
    };
    let rx_count = match find(members, "rx_count", Some("rxCount")) {
        Lookup::Found(v) => decode_u64(v)?,
        _ => return None,
    };
    Some(LoraPayload { latitude, longitude, gps_satellites, rx_count })
}

/// Decodes a gateway position.
pub fn decode_location(value: &Json) -> (r: Option<Location>)
    ensures
        r == location_of(value@),
{
    let members = match value {
        Json::Object(members) => members,
        _ => return None,
    };
    proof {
        lemma_view_parts(*value);
    }
    let latitude = match find(members, "latitude", None) {
        Lookup::Found(v) => decode_real(v)?,
        _ => return None,
    };
    let longitude = match find(members, "longitude", None) {
        Lookup::Found(v) => decode_real(v)?,
        _ => return None,
    };
    let altitude = match find(members, "altitude", None) {
        Lookup::Missing => None,
        Lookup::Found(Json::Null) => None,
        Lookup::Found(v) => Some(decode_real(v)?),
        Lookup::Repeated => return None,
    };
    Some(Location { latitude, longitude, altitude })
}

/// Decodes the names of a gateway.
pub fn decode_gateway_ids(value: &Json) -> (r: Option<GatewayId>)
    ensures
        opt_view(r) == gateway_ids_of(value@),
{
    let members = match value {
        Json::Object(members) => members,
        _ => return None,
    };
    proof {
        lemma_view_parts(*value);
    }
    let eui = match find(members, "eui", None) {
        Lookup::Missing => None,
        Lookup::Found(Json::Null) => None,
        Lookup::Found(v) => Some(decode_text(v)?),
        Lookup::Repeated => return None,
    };
    let gateway_id = match find(members, "gateway_id", None) {
        Lookup::Missing => None,
        Lookup::Found(Json::Null) => None,
        Lookup::Found(v) => Some(decode_text(v)?),
        Lookup::Repeated => return None,
    };
    Some(GatewayId { eui, gateway_id })
}

/// Decodes the members of a reception list entry but for the reception
/// time, and attaches `received_at` in its place.
pub fn decode_gateway_at(members: &Vec<Member>, received_at: Option<Instant>) -> (r: Option<
    Gateway,
>)
    ensures
        opt_view(r) == gateway_at(members_view(members@), received_at),
{
    let gateway_ids = match find(members, "gateway_ids", None) {
        Lookup::Found(v) => decode_gateway_ids(v)?,
        _ => return None,
    };
    let rssi = match find(members, "rssi", None) {
        Lookup::Found(v) => decode_i64(v)?,
        _ => return None,
    };
    let snr = match find(members, "snr", None) {
        Lookup::Missing => None,
        Lookup::Found(Json::Null) => None,
        Lookup::Found(v) => Some(decode_real(v)?),
        Lookup::Repeated => return None,
    };
    let location = match find(members, "location", None) {
        Lookup::Missing => None,
        Lookup::Found(Json::Null) => None,
        Lookup::Found(v) => Some(decode_location(v)?),
        Lookup::Repeated => return None,
    };
    Some(Gateway { gateway_ids, received_at, rssi, snr, location })
}

/// Decodes one gateway's reception report: reads its reception time, then
/// the rest of the entry.
pub fn decode_gateway(value: &Json) -> (r: Option<Gateway>)
    ensures
        opt_view(r) == gateway_of(value@),
{
    let members = match value {
        Json::Object(members) => members,
        _ => return None,
    };
    proof {
        lemma_view_parts(*value);
    }
    let received_at = match find(members, "received_at", None) {
        Lookup::Missing => None,
        Lookup::Found(Json::Null) => None,
        Lookup::Found(v) => Some(decode_time(v)?),
        Lookup::Repeated => return None,
    };
    decode_gateway_at(members, received_at)
}

/// Decodes a reception list: an array of `null`s and reception reports.
pub fn decode_receptions(value: &Json) -> (r: Option<Vec<Option<Gateway>>>)
    ensures
        match r {
            Some(slots) => receptions_of(value@) == Some(slots_view(slots@)),
            None => receptions_of(value@) is None,
        },
{
    let items = match value {
        Json::Array(items) => items,
        _ => return None,
    };
    proof {
        lemma_view_parts(*value);
    }
    let ghost all = items_view(items@);
    let mut slots: Vec<Option<Gateway>> = Vec::new();
    let mut i: usize = 0;
    while i < items.len()
        invariant
            value@ == JsonView::Array(all),
            all == items_view(items@),
            i <= items.len(),
            slots@.len() == i,
            forall|j: int| 0 <= j < i ==> slot_of(#[trigger] all[j]) == Some(opt_view(slots@[j])),
        decreases items.len() - i,
    {
        let slot = match &items[i] {
            Json::Null => None,
            item => {
                match decode_gateway(item) {
                    Some(g) => Some(g),
                    None => {
                        assert(slot_of(all[i as int]) is None);
                        return None;
                    },
                }
            },
        };
        slots.push(slot);
        i += 1;
    }
    Some(slots)
}

/// Decodes an uplink message.
pub fn decode_message(value: &Json) -> (r: Option<UplinkMessage>)
    ensures
        opt_view(r) == message_of(value@),
{
    let members = match value {
        Json::Object(members) => members,
        _ => return None,
    };
    proof {
        lemma_view_parts(*value);
    }
    let decoded_payload = match find(members, "decoded_payload", None) {
        Lookup::Found(v) => decode_payload(v)?,
        _ => return None,
    };
    let rx_metadata = match find(members, "rx_metadata", None) {
        Lookup::Found(v) => decode_receptions(v)?,
        _ => return None,
    };
    Some(UplinkMessage { decoded_payload, rx_metadata })
}

/// Decodes a stored document into an uplink; `None` where the document does
/// not have the shape of one.
pub fn decode(doc: &Json) -> (r: Option<Uplink>)
    ensures
        opt_view(r) == uplink_of(doc@),
{
    let members = match doc {
        Json::Object(members) => members,
        _ => return None,
    };
    proof {
        lemma_view_parts(*doc);
    }
    let uplink_message = match find(members, "uplink_message", None) {
        Lookup::Found(v) => decode_message(v)?,
        _ => return None,
    };
    Some(Uplink { uplink_message })
}

/// Whether a document has the wrappers of an uplink: it is an object with
/// one member `uplink_message`, which is an object with one member
/// `decoded_payload` and one member `rx_metadata`.
pub open spec fn has_wrappers(doc: JsonView) -> bool {
    &&& doc matches JsonView::Object(outer)
    &&& lookup(outer, "uplink_message"@, None) matches LookupView::Found(message)
    &&& message matches JsonView::Object(inner)
    &&& lookup(inner, "decoded_payload"@, None) is Found
    &&& lookup(inner, "rx_metadata"@, None) is Found
}

/// A document that lacks one of the wrappers of an uplink does not decode.
pub proof fn lemma_wrappers_needed(doc: JsonView)
    requires
        !has_wrappers(doc),
    ensures
        uplink_of(doc) is None,
{
}

} // verus!
