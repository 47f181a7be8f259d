//! The row expander: one table row for each gateway that reported an uplink
//! and says where it stands.

use vstd::prelude::*;
use vstd::string::*;

use crate::json::Number;
use crate::model::{
    opt_view, Gateway, GatewayIdView, GatewayView, LoraPayload, UplinkMessage, UplinkMessageView,
};
use crate::time::Instant;

verus! {

/// The bit pattern of the quiet not-a-number value of IEEE 754 double
/// precision.
pub const NAN_BITS: u64 = 0x7ff8_0000_0000_0000;

/// The name given to a gateway that reports none.
pub const ANONYMOUS: &'static str = "anonymous";

/// One row of the output table.
#[derive(Debug, PartialEq, Eq)]
pub struct CsvRow {
    pub message_id: i64,
    pub gateway_id: String,
    /// When the gateway received the message; absent where it did not say.
    pub received_at: Option<Instant>,
    pub rx_lat: Number,
    pub rx_lng: Number,
    pub rssi: i64,
    pub snr: Number,
    pub rx_count: u64,
    pub satellites_used: u16,
    pub gps_lat: Number,
    pub gps_lng: Number,
}

/// The mathematical content of a [`CsvRow`].
pub struct CsvRowView {
    pub message_id: i64,
    pub gateway_id: Seq<char>,
    pub received_at: Option<Instant>,
    pub rx_lat: Number,
    pub rx_lng: Number,
    pub rssi: i64,
    pub snr: Number,
    pub rx_count: u64,
    pub satellites_used: u16,
    pub gps_lat: Number,
    pub gps_lng: Number,
}

impl View for CsvRow {
    type V = CsvRowView;

    open spec fn view(&self) -> CsvRowView {
        CsvRowView {
            message_id: self.message_id,
            gateway_id: self.gateway_id@,
            received_at: self.received_at,
            rx_lat: self.rx_lat,
            rx_lng: self.rx_lng,
            rssi: self.rssi,
            snr: self.snr,
            rx_count: self.rx_count,
            satellites_used: self.satellites_used,
            gps_lat: self.gps_lat,
            gps_lng: self.gps_lng,
        }
    }
}

/// The content of a list of rows, row by row.
pub open spec fn rows_view(rows: Seq<CsvRow>) -> Seq<CsvRowView> {
    rows.map_values(|row: CsvRow| row@)
}

/// The name under which a gateway appears in the table: its `gateway_id`
/// where it has one, else [`ANONYMOUS`]. Its `eui` plays no part.
pub open spec fn display_id(ids: GatewayIdView) -> Seq<char> {
    match ids.gateway_id {
        Some(id) => id,
        None => ANONYMOUS@,
    }
}

/// The signal-to-noise ratio of a row: the reported one, else not-a-number.
pub open spec fn snr_or_nan(snr: Option<Number>) -> Number {
    match snr {
        Some(n) => n,
        None => Number::Float(NAN_BITS),
    }
}

/// The row that a slot of the reception list gives: none for an empty slot
/// and none for a gateway without a location.
pub open spec fn row_of(message_id: i64, payload: LoraPayload, slot: Option<GatewayView>) -> Option<
    CsvRowView,
> {
    match slot {
        Some(gateway) => match gateway.location {
            Some(location) => Some(
                CsvRowView {
                    message_id,
                    gateway_id: display_id(gateway.gateway_ids),
                    received_at: gateway.received_at,
                    rx_lat: location.latitude,
                    rx_lng: location.longitude,
                    rssi: gateway.rssi,
                    snr: snr_or_nan(gateway.snr),
                    rx_count: payload.rx_count,
                    satellites_used: payload.gps_satellites,
                    gps_lat: payload.latitude,
                    gps_lng: payload.longitude,
                },
            ),
            None => None,
        },
        None => None,
    }
}

/// The rows that a message expands to: those of its slots, in their order.
pub open spec fn rows_of(message_id: i64, message: UplinkMessageView) -> Seq<CsvRowView> {
    message.rx_metadata.filter_map(
        |slot: Option<GatewayView>| row_of(message_id, message.decoded_payload, slot),
    )
}

/// Whether a slot of the reception list gives a row: it holds a gateway, and
/// the gateway has a location.
pub open spec fn gives_row(slot: Option<GatewayView>) -> bool {
    slot matches Some(gateway) && gateway.location is Some
}

/// Builds the row of one gateway, if the gateway says where it stands.
pub fn row(message_id: i64, payload: &LoraPayload, gateway: &Gateway) -> (r: Option<CsvRow>)
    ensures
        opt_view(r) == row_of(message_id, *payload, Some(gateway@)),
{
    let location = match gateway.location {
        Some(location) => location,
        None => return None,
    };
    let gateway_id = match &gateway.gateway_ids.gateway_id {
        Some(id) => id.clone(),
        None => String::from_str(ANONYMOUS),
    };
    let snr = match gateway.snr {
        Some(n) => n,
        None => Number::Float(NAN_BITS),
    };
    Some(
        CsvRow {
            message_id,
            gateway_id,
            received_at: gateway.received_at,
            rx_lat: location.latitude,
            rx_lng: location.longitude,
            rssi: gateway.rssi,
            snr,
            rx_count: payload.rx_count,
            satellites_used: payload.gps_satellites,
            gps_lat: payload.latitude,
            gps_lng: payload.longitude,
        },
    )
}

/// Expands a message into its rows: one for each slot of the reception list
/// that holds a gateway with a location, in the order of the list. There
/// are never more rows than slots, and as many only where every slot gives
/// one.
pub fn expand(message_id: i64, message: &UplinkMessage) -> (rows: Vec<CsvRow>)
    ensures
        rows_view(rows@) == rows_of(message_id, message@),
        rows.len() <= message.rx_metadata.len(),
        rows.len() == message.rx_metadata.len() <==> forall|i: int|
            0 <= i < message.rx_metadata.len() ==> gives_row(#[trigger] message@.rx_metadata[i]),
{
    let mut rows: Vec<CsvRow> = Vec::new();
    let mut i: usize = 0;
    let ghost slots = message@.rx_metadata;
    let ghost payload = message.decoded_payload;
    let ghost f = |slot: Option<GatewayView>| row_of(message_id, payload, slot);
    while i < message.rx_metadata.len()
        invariant
            i <= message.rx_metadata.len(),
            slots == message@.rx_metadata,
            payload == message.decoded_payload,
            f == |slot: Option<GatewayView>| row_of(message_id, payload, slot),
            rows_view(rows@) == slots.take(i as int).filter_map(f),
        decreases message.rx_metadata.len() - i,
    {
        proof {
            assert(slots.take(i + 1).drop_last() =~= slots.take(i as int));
        }
        match &message.rx_metadata[i] {
            Some(gateway) => {
                match row(message_id, &message.decoded_payload, gateway) {
                    Some(r) => {
                        rows.push(r);
                    },
                    None => {},
                }
            },
            None => {},
        }
        i += 1;
    }
    proof {
        assert(slots.take(i as int) =~= slots);
        lemma_rows_len(message_id, message@);
    }
    rows
}

proof fn lemma_filter_map_len<A, B>(s: Seq<A>, f: spec_fn(A) -> Option<B>)
    ensures
        s.filter_map(f).len() <= s.len(),
        s.filter_map(f).len() == s.len() <==> forall|i: int|
            0 <= i < s.len() ==> f(#[trigger] s[i]) is Some,
    decreases s.len(),
{
    if s.len() > 0 {
        let rest = s.drop_last();
        lemma_filter_map_len(rest, f);
        assert forall|i: int| 0 <= i < rest.len() implies rest[i] == s[i] by {}
    }
}

/// A message expands to no more rows than its reception list has slots, and
/// to exactly as many if and only if every slot holds a gateway with a
/// location.
pub proof fn lemma_rows_len(message_id: i64, message: UplinkMessageView)
    ensures
        rows_of(message_id, message).len() <= message.rx_metadata.len(),
        rows_of(message_id, message).len() == message.rx_metadata.len() <==> forall|i: int|
            0 <= i < message.rx_metadata.len() ==> gives_row(#[trigger] message.rx_metadata[i]),
{
    let f = |slot: Option<GatewayView>| row_of(message_id, message.decoded_payload, slot);
    lemma_filter_map_len(message.rx_metadata, f);
    assert forall|i: int| 0 <= i < message.rx_metadata.len() implies (gives_row(
        #[trigger] message.rx_metadata[i],
    ) <==> f(message.rx_metadata[i]) is Some) by {}
}

/// Every row of a message comes from a slot of its reception list: one that
/// holds a gateway with a location. The row carries that gateway's name as
/// [`display_id`] gives it, and its signal-to-noise ratio where it reports
/// one, else not-a-number.
pub proof fn lemma_row_source(message_id: i64, message: UplinkMessageView, k: int) -> (j: int)
    requires
        0 <= k < rows_of(message_id, message).len(),
    ensures
        0 <= j < message.rx_metadata.len(),
        gives_row(message.rx_metadata[j]),
        row_of(message_id, message.decoded_payload, message.rx_metadata[j]) == Some(
            rows_of(message_id, message)[k],
        ),
        rows_of(message_id, message)[k].gateway_id == display_id(
            message.rx_metadata[j]->0.gateway_ids,
        ),
        rows_of(message_id, message)[k].snr == snr_or_nan(message.rx_metadata[j]->0.snr),
{
    let f = |slot: Option<GatewayView>| row_of(message_id, message.decoded_payload, slot);
    let rows = rows_of(message_id, message);
    message.rx_metadata.lemma_filter_map_contains(f, rows[k]);
    let slot = choose|slot: Option<GatewayView>| #[trigger]
        message.rx_metadata.contains(slot) && f(slot) == Some(rows[k]);
    choose|j: int| 0 <= j < message.rx_metadata.len() && message.rx_metadata[j] == slot
}

/// A gateway's name in the table is its `gateway_id` where it has one, else
/// [`ANONYMOUS`]; it is the empty text only where the `gateway_id` is.
pub proof fn lemma_display_id(ids: GatewayIdView)
    ensures
        ids.gateway_id matches Some(id) ==> display_id(ids) == id,
        ids.gateway_id is None ==> display_id(ids) == ANONYMOUS@,
        display_id(ids).len() == 0 <==> ids.gateway_id == Some(Seq::<char>::empty()),
{
    reveal_strlit("anonymous");
    match ids.gateway_id {
        Some(id) => {
            if id.len() == 0 {
                assert(id =~= Seq::<char>::empty());
            }
        },
        None => {},
    }
}

/// No row of a message has an empty gateway name, as long as no gateway of
/// the message reports the empty text as its `gateway_id`.
pub proof fn lemma_gateway_id_not_empty(message_id: i64, message: UplinkMessageView)
    requires
        forall|j: int|
            0 <= j < message.rx_metadata.len() ==> ((#[trigger] message.rx_metadata[j]) matches Some(
                gateway,
            ) ==> gateway.gateway_ids.gateway_id != Some(Seq::<char>::empty())),
    ensures
        forall|k: int|
            0 <= k < rows_of(message_id, message).len() ==> (#[trigger] rows_of(
                message_id,
                message,
            )[k]).gateway_id.len() > 0,
{
    assert forall|k: int| 0 <= k < rows_of(message_id, message).len() implies (#[trigger] rows_of(
        message_id,
        message,
    )[k]).gateway_id.len() > 0 by {
        let j = lemma_row_source(message_id, message, k);
        lemma_display_id(message.rx_metadata[j]->0.gateway_ids);
    }
}

} // verus!
