//! The data crossing the core/consumer boundary: device records built from
//! advertisements, characteristic records built from GATT discovery, and the
//! tagged outbound message that carries them.
use vstd::prelude::*;

verus! {

/// A snapshot of the advertised properties of one peripheral, as the adapter
/// reported them. UUIDs are carried as their 128-bit integer value.
#[derive(Clone)]
pub struct AdvertisedProperties {
    /// The GAP local name, when the advertisement carried one.
    pub local_name: Option<String>,
    /// The transmission power level, when advertised.
    pub tx_power_level: Option<i16>,
    /// The peripheral's address, rendered as text.
    pub address: String,
    /// The most recent received signal strength, when known.
    pub rssi: Option<i16>,
    /// Manufacturer-specific advertisement data, keyed by manufacturer id.
    pub manufacturer_data: Vec<(u16, Vec<u8>)>,
    /// The advertised service UUIDs.
    pub services: Vec<u128>,
    /// Service-specific advertisement data, keyed by service UUID.
    pub service_data: Vec<(u128, Vec<u8>)>,
}

/// One discovered device, as reported to the consumer. A fresh record is
/// built for every discovery or update event; the consumer merges by id.
#[derive(Clone)]
pub struct DeviceInfo {
    /// The platform identity of the device.
    pub id: String,
    /// The human-readable name, when one was advertised.
    pub name: Option<String>,
    /// The transmission power level, when advertised.
    pub tx_power_level: Option<i16>,
    /// The device's address, rendered as text.
    pub address: String,
    /// The most recent received signal strength, when known.
    pub rssi: Option<i16>,
    /// Manufacturer-specific advertisement data.
    pub manufacturer_data: Vec<(u16, Vec<u8>)>,
    /// The advertised service UUIDs.
    pub services: Vec<u128>,
    /// Service-specific advertisement data.
    pub service_data: Vec<(u128, Vec<u8>)>,
    /// Whether a live handle to the underlying device connection exists.
    /// The handle itself lives with the adapter layer that owns the record.
    pub has_device: bool,
}

/// One characteristic of a connected device's GATT tree, exactly as the
/// adapter discovered it, before it is flattened into a [`Characteristic`].
#[derive(Clone)]
pub struct GattCharacteristic {
    /// The characteristic's UUID.
    pub uuid: u128,
    /// The bitset of supported operations.
    pub properties: u8,
    /// The UUIDs of the characteristic's descriptors, in discovery order.
    pub descriptor_uuids: Vec<u128>,
    /// The UUID of the owning service.
    pub service_uuid: u128,
}

/// One characteristic record as delivered to the consumer.
#[derive(Clone)]
pub struct Characteristic {
    /// The characteristic's UUID.
    pub uuid: u128,
    /// The bitset of supported operations.
    pub properties: u8,
    /// The UUIDs of the characteristic's descriptors, in discovery order.
    pub descriptors: Vec<u128>,
    /// The UUID of the owning service.
    pub service: u128,
}

/// The sole message type crossing from the core to the consumer, pushed onto
/// an unbounded FIFO queue.
#[derive(Clone)]
pub enum DeviceData {
    /// A device passed the service filter; here is its fresh record.
    DeviceInfo(DeviceInfo),
    /// The complete characteristic list of one inspected device.
    Characteristics(Vec<Characteristic>),
    /// A retrieval request failed; the text says why.
    Error(String),
}

/// The messages one step put on the queue: one or none.
pub open spec fn message_seq(m: Option<DeviceData>) -> Seq<DeviceData> {
    match m {
        Some(x) => seq![x],
        None => Seq::empty(),
    }
}

/// A characteristic record carries exactly the fields of the discovered
/// characteristic it was flattened from.
pub open spec fn flattened_from(c: Characteristic, g: GattCharacteristic) -> bool {
    &&& c.uuid == g.uuid
    &&& c.properties == g.properties
    &&& c.descriptors@ == g.descriptor_uuids@
    &&& c.service == g.service_uuid
}

} // verus!
