//! The decoded uplink message: a sensor payload and the list of gateways
//! that reported receiving it.

use vstd::prelude::*;

use crate::json::Number;
use crate::time::Instant;

verus! {

/// The sensor reading that an uplink carries.
#[derive(Clone, Copy, Debug, PartialEq, Eq, Structural)]
pub struct LoraPayload {
    pub latitude: Number,
    pub longitude: Number,
    /// Satellites used for the position fix.
    pub gps_satellites: u16,
    /// How many gateways the network counted as receivers.
    pub rx_count: u64,
}

/// Where a gateway stands.
#[derive(Clone, Copy, Debug, PartialEq, Eq, Structural)]
pub struct Location {
    pub latitude: Number,
    pub longitude: Number,
    pub altitude: Option<Number>,
}

/// The names a gateway goes by.
#[derive(Debug, PartialEq, Eq)]
pub struct GatewayId {
    pub eui: Option<String>,
    pub gateway_id: Option<String>,
}

/// The mathematical content of a [`GatewayId`].
pub struct GatewayIdView {
    pub eui: Option<Seq<char>>,
    pub gateway_id: Option<Seq<char>>,
}

/// The mathematical content of a value that may be absent.
pub open spec fn opt_view<T: View>(value: Option<T>) -> Option<T::V> {
    match value {
        Some(v) => Some(v@),
        None => None,
    }
}

impl View for GatewayId {
    type V = GatewayIdView;

    open spec fn view(&self) -> GatewayIdView {
        GatewayIdView { eui: opt_view(self.eui), gateway_id: opt_view(self.gateway_id) }
    }
}

/// One gateway's report of having received an uplink.
#[derive(Debug, PartialEq, Eq)]
pub struct Gateway {
    pub gateway_ids: GatewayId,
    pub received_at: Option<Instant>,
    /// Received signal strength.
    pub rssi: i64,
    /// Signal-to-noise ratio.
    pub snr: Option<Number>,
    pub location: Option<Location>,
}

/// The mathematical content of a [`Gateway`].
pub struct GatewayView {
    pub gateway_ids: GatewayIdView,
    pub received_at: Option<Instant>,
    pub rssi: i64,
    pub snr: Option<Number>,
    pub location: Option<Location>,
}

impl View for Gateway {
    type V = GatewayView;

    open spec fn view(&self) -> GatewayView {
        GatewayView {
            gateway_ids: self.gateway_ids@,
            received_at: self.received_at,
            rssi: self.rssi,
            snr: self.snr,
            location: self.location,
        }
    }
}

/// The content of a reception list, slot by slot.
pub open spec fn slots_view(slots: Seq<Option<Gateway>>) -> Seq<Option<GatewayView>> {
    slots.map_values(|slot: Option<Gateway>| opt_view(slot))
}

/// A decoded uplink message.
#[derive(Debug, PartialEq, Eq)]
pub struct UplinkMessage {
    pub decoded_payload: LoraPayload,
    /// The reception list, in the order of the document; a slot is empty
    /// where the document holds `null`.
    pub rx_metadata: Vec<Option<Gateway>>,
}

/// The mathematical content of an [`UplinkMessage`].
pub struct UplinkMessageView {
    pub decoded_payload: LoraPayload,
    pub rx_metadata: Seq<Option<GatewayView>>,
}

impl View for UplinkMessage {
    type V = UplinkMessageView;

    open spec fn view(&self) -> UplinkMessageView {
        UplinkMessageView {
            decoded_payload: self.decoded_payload,
            rx_metadata: slots_view(self.rx_metadata@),
        }
    }
}

/// A stored uplink notification, as far as the extraction reads it.
#[derive(Debug, PartialEq, Eq)]
pub struct Uplink {
    pub uplink_message: UplinkMessage,
}

/// The mathematical content of an [`Uplink`].
pub struct UplinkView {
    pub uplink_message: UplinkMessageView,
}

impl View for Uplink {
    type V = UplinkView;

    open spec fn view(&self) -> UplinkView {
        UplinkView { uplink_message: self.uplink_message@ }
    }
}

} // verus!
