//! Core logic of a BLE heart-rate device scanner: software filtering of
//! advertisement events, pause/resume decisions for the scan session, and
//! bounded-timeout characteristic retrieval, all stated and proved here.
//! The async adapter loop and the terminal rendering live outside the
//! library and only perform the actions decided here.
use vstd::prelude::*;

pub mod device;
pub mod outbound;
pub mod overlay;
pub mod retrieve;
pub mod scan;

verus! {

/// The heart-rate service UUID, as a 128-bit integer.
pub const HEART_RATE_SERVICE_UUID: u128 = 0x0000180d_0000_1000_8000_00805f9b34fb;

} // verus!
