//! Messages exchanged over the bus.
use vstd::prelude::*;

verus! {

/// The sensed state of one monitored device.
#[derive(Clone, Copy, Debug, PartialEq, Eq, Structural)]
pub struct StatusMessageDevice {
    pub milliamps: u32,
    pub is_on: bool,
}

/// A status report: the state of each monitored device, by device name, in
/// channel order.
#[derive(Clone, Debug, PartialEq, Eq)]
pub struct StatusMessage {
    pub devices: Vec<(String, StatusMessageDevice)>,
}

/// An inbound request to transmit the signal of a button of a remote.
#[derive(Clone, Debug, PartialEq, Eq)]
pub struct TransmitMessage {
    pub remote_name: String,
    pub button_name: String,
}

} // verus!
