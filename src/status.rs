//! Status reports built from the currents sensed on the controller's channels.
use vstd::prelude::*;
use crate::config::UnisonConfigDevice;
use crate::message::{StatusMessage, StatusMessageDevice};

verus! {

/// A failure reported by the controller.
#[derive(Clone, Debug, PartialEq, Eq)]
pub enum DeviceError {
    /// The controller knows no such button of that remote.
    InvalidButton { remote_name: String, button_name: String },
    /// The controller did not answer in time.
    Timeout(String),
    /// Any other controller failure.
    Other(String),
}

/// Why a status report could not be built.
#[derive(Clone, Debug, PartialEq, Eq)]
pub enum StatusError {
    /// The controller timed out while a channel was read.
    Timeout(String),
    /// The controller failed otherwise while a channel was read.
    Device(DeviceError),
    /// The report could not be encoded.
    Encode(String),
    /// Publishing the report did not succeed.
    PublishFailed(String),
}

/// The status failure that a controller failure while reading a channel causes.
pub open spec fn status_error_of(e: DeviceError) -> StatusError {
    match e {
        DeviceError::Timeout(msg) => StatusError::Timeout(msg),
        _ => StatusError::Device(e),
    }
}

/// The report entry of `device` when `milliamps` are sensed on its channel.
pub open spec fn status_entry(device: UnisonConfigDevice, milliamps: u32) -> (
    String,
    StatusMessageDevice,
) {
    (device.name, StatusMessageDevice { milliamps, is_on: milliamps > device.on_threshold_milliamps })
}

/// The report entries for sensed currents `milliamps`, channel `i` going with
/// device `i`; a channel without a device, or a device without a channel, is left out.
pub open spec fn status_entries(devices: Seq<UnisonConfigDevice>, milliamps: Seq<u32>) -> Seq<
    (String, StatusMessageDevice),
> {
    let n = if devices.len() < milliamps.len() {
        devices.len()
    } else {
        milliamps.len()
    };
    Seq::new(n, |i: int| status_entry(devices[i], milliamps[i]))
}

/// The sensed currents of a sequence of successful channel readings.
pub open spec fn reading_values(readings: Seq<Result<u32, DeviceError>>) -> Seq<u32> {
    readings.map_values(|r: Result<u32, DeviceError>| r->Ok_0)
}

/// Maps a controller failure while reading a channel to the status failure it causes.
pub fn status_error(e: DeviceError) -> (r: StatusError)
    ensures
        r == status_error_of(e),
{
    match e {
        DeviceError::Timeout(msg) => StatusError::Timeout(msg),
        other => StatusError::Device(other),
    }
}

impl DeviceError {
    /// A copy of this failure.
    pub fn copied(&self) -> (r: DeviceError)
        ensures
            r == *self,
    {
        match self {
            DeviceError::InvalidButton { remote_name, button_name } => DeviceError::InvalidButton {
                remote_name: remote_name.clone(),
                button_name: button_name.clone(),
            },
            DeviceError::Timeout(msg) => DeviceError::Timeout(msg.clone()),
            DeviceError::Other(msg) => DeviceError::Other(msg.clone()),
        }
    }
}

/// Builds the status report from the readings of the channels in order.
/// The first failed reading fails the whole report; otherwise each channel
/// that has a configured device gives one entry.
pub fn build_status(
    devices: &Vec<UnisonConfigDevice>,
    readings: &Vec<Result<u32, DeviceError>>,
) -> (r: Result<StatusMessage, StatusError>)
    ensures
        (forall|i: int| 0 <= i < readings@.len() ==> readings@[i] is Ok) ==> match r {
            Ok(m) => m.devices@ == status_entries(devices@, reading_values(readings@)),
            Err(_) => false,
        },
        forall|i: int|
            0 <= i < readings@.len() && readings@[i] is Err && (forall|j: int|
                0 <= j < i ==> readings@[j] is Ok) ==> r == Err::<StatusMessage, StatusError>(
                status_error_of(readings@[i]->Err_0),
            ),
{
    let mut entries: Vec<(String, StatusMessageDevice)> = Vec::new();
    let mut i: usize = 0;
    while i < readings.len()
        invariant
            i <= readings@.len(),
            forall|j: int| 0 <= j < i ==> readings@[j] is Ok,
            entries@ == status_entries(devices@, reading_values(readings@.subrange(0, i as int))),
        decreases readings@.len() - i,
    {
        let milliamps: u32 = match &readings[i] {
            Ok(v) => *v,
            Err(e) => {
                return Err(status_error(e.copied()));
            },
        };
        if i < devices.len() {
            let device = &devices[i];
            entries.push(
                (
                    device.name.clone(),
                    StatusMessageDevice {
                        milliamps,
                        is_on: milliamps > device.on_threshold_milliamps,
                    },
                ),
            );
        }
        assert(entries@ =~= status_entries(
            devices@,
            reading_values(readings@.subrange(0, i + 1)),
        ));
        i += 1;
    }
    assert(readings@.subrange(0, i as int) =~= readings@);
    Ok(StatusMessage { devices: entries })
}

} // verus!
