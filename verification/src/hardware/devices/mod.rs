//! Device discovery logic: the endpoint allow-list, the handshake that
//! identifies a device and negotiates its capability, and the construction
//! of the active device set from the handshake responses. Opening, writing
//! and reading the HID transport is the surrounding task's work.

pub mod rpm_gauge;

use vstd::prelude::*;
use crate::wire::le16;

verus! {

/// Vendor id of the one supported physical device.
pub const SUPPORTED_VID: u16 = 6991;

/// Product id of the one supported physical device.
pub const SUPPORTED_PID: u16 = 37382;

/// A successfully handshaken device, one variant per device kind.
#[derive(Debug, Clone, Copy, PartialEq, Eq, Structural)]
pub enum Device {
    RpmGauge(rpm_gauge::RpmGauge),
}

/// Why an endpoint failed device initialization. Such a failure skips the
/// endpoint; the remaining endpoints are still probed.
#[derive(Debug, Clone, Copy, PartialEq, Eq, Structural)]
pub enum InitDeviceError {
    /// The handshake response named a device type this library does not know.
    UnknownDevice,
    /// The handshake response was shorter than the four bytes it must hold.
    NotEnoughDataRead,
}

/// The 5-byte magic sequence written to a newly opened endpoint to start
/// the handshake: report id 0, then four fixed bytes.
pub open spec fn handshake_magic_bytes() -> Seq<u8> {
    seq![0u8, 123u8, 38u8, 83u8, 231u8]
}

/// What the handshake concludes from a device's response: byte 0 is the
/// device type (0 denotes an RPM gauge), byte 1 the unit type, bytes 2–3
/// the little-endian value ceiling. A response shorter than 4 bytes, or an
/// unknown device type, rejects the endpoint.
pub open spec fn handshake_result(response: Seq<u8>) -> Result<Device, InitDeviceError> {
    if response.len() < 4 {
        Err(InitDeviceError::NotEnoughDataRead)
    } else if response[0] != 0 {
        Err(InitDeviceError::UnknownDevice)
    } else {
        Ok(Device::RpmGauge(rpm_gauge::RpmGauge { max_rpm: le16(response, 2) }))
    }
}

/// The device set that one discovery pass builds from the handshake
/// responses of the allow-listed endpoints: one device per accepted
/// response, in probe order; rejected responses contribute nothing.
pub open spec fn devices_from_responses(responses: Seq<Vec<u8>>) -> Seq<Device>
    decreases responses.len(),
{
    if responses.len() == 0 {
        Seq::empty()
    } else {
        devices_from_responses(responses.drop_last()) + match handshake_result(
            responses.last()@,
        ) {
            Ok(d) => seq![d],
            Err(_) => Seq::empty(),
        }
    }
}

/// True for the endpoints that discovery probes at all: USB-bus endpoints
/// whose vendor/product id pair is on the static allow-list.
pub fn endpoint_supported(vid: u16, pid: u16, usb_bus: bool) -> (r: bool)
    ensures
        r == (usb_bus && vid == SUPPORTED_VID && pid == SUPPORTED_PID),
{
    usb_bus && vid == SUPPORTED_VID && pid == SUPPORTED_PID
}

/// The magic bytes that open the handshake, ready to be written.
pub fn handshake_magic() -> (r: Vec<u8>)
    ensures
        r@ == handshake_magic_bytes(),
{
    let r: Vec<u8> = vec![0u8, 123u8, 38u8, 83u8, 231u8];
    proof {
        assert(r@ =~= handshake_magic_bytes());
    }
    r
}

impl Device {
    /// Validates one handshake response and instantiates the typed device
    /// it describes, or says exactly why the endpoint is rejected.
    pub fn from_handshake_response(response: &[u8]) -> (r: Result<Device, InitDeviceError>)
        ensures
            r == handshake_result(response@),
    {
        if response.len() < 4 {
            return Err(InitDeviceError::NotEnoughDataRead);
        }
        let device_type: u8 = response[0];
        let max_value: u16 = response[2] as u16 + 256 * (response[3] as u16);
        if device_type == 0 {
            Ok(Device::RpmGauge(rpm_gauge::RpmGauge::new(max_value)))
        } else {
            Err(InitDeviceError::UnknownDevice)
        }
    }

    /// Encodes one keep-alive command for this device.
    pub fn heartbeat(&self) -> (r: Vec<u8>)
        ensures
            r@ == rpm_gauge::heartbeat_command(),
    {
        match self {
            Device::RpmGauge(gauge) => gauge.heartbeat(),
        }
    }

    /// Encodes one update-value command for this device, clamping the value
    /// to the device's negotiated ceiling.
    pub fn update_rpm(&self, rpm: u16) -> (r: Vec<u8>)
        ensures
            r@ == update_command_for(*self, rpm),
    {
        match self {
            Device::RpmGauge(gauge) => gauge.update_rpm(rpm),
        }
    }
}

/// The update-value buffer that `d` is sent for a requested value `rpm`.
pub open spec fn update_command_for(d: Device, rpm: u16) -> Seq<u8> {
    match d {
        Device::RpmGauge(gauge) => rpm_gauge::update_command(rpm, gauge.max_rpm),
    }
}

impl InitDeviceError {
    /// A short description of the failure, for diagnostics.
    pub fn message(&self) -> (r: &'static str)
        ensures
            *self is UnknownDevice ==> r@ == "unknown device"@,
            *self is NotEnoughDataRead ==> r@ == "not enough bytes to read"@,
    {
        match self {
            InitDeviceError::UnknownDevice => "unknown device",
            InitDeviceError::NotEnoughDataRead => "not enough bytes to read",
        }
    }
}

/// Builds the active device set of one discovery pass: every response that
/// passes handshake validation yields one device, in probe order.
pub fn collect_devices(responses: &Vec<Vec<u8>>) -> (r: Vec<Device>)
    ensures
        r@ == devices_from_responses(responses@),
{
    let mut out: Vec<Device> = Vec::new();
    let mut i: usize = 0;
    while i < responses.len()
        invariant
            i <= responses@.len(),
            out@ == devices_from_responses(responses@.subrange(0, i as int)),
        decreases responses@.len() - i,
    {
        match Device::from_handshake_response(responses[i].as_slice()) {
            Ok(device) => out.push(device),
            Err(_) => (),
        }
        proof {
            let prefix = responses@.subrange(0, i + 1);
            assert(prefix.drop_last() =~= responses@.subrange(0, i as int));
            assert(prefix.last() == responses@[i as int]);
        }
        i = i + 1;
    }
    proof {
        assert(responses@.subrange(0, responses@.len() as int) =~= responses@);
    }
    out
}

/// A response that fails handshake validation is excluded from the active
/// set: discovery builds the same set with or without that endpoint.
pub proof fn lemma_rejected_endpoint_excluded(responses: Seq<Vec<u8>>, i: int)
    requires
        0 <= i < responses.len(),
        handshake_result(responses[i]@) is Err,
    ensures
        devices_from_responses(responses) == devices_from_responses(responses.remove(i)),
    decreases responses.len(),
{
    if i == responses.len() - 1 {
        assert(responses.remove(i) =~= responses.drop_last());
    } else {
        lemma_rejected_endpoint_excluded(responses.drop_last(), i);
        assert(responses.remove(i).drop_last() =~= responses.drop_last().remove(i));
        assert(responses.remove(i).last() == responses.last());
    }
}

/// A response that passes handshake validation puts its device into the
/// active set.
pub proof fn lemma_accepted_endpoint_included(responses: Seq<Vec<u8>>, i: int)
    requires
        0 <= i < responses.len(),
        handshake_result(responses[i]@) is Ok,
    ensures
        devices_from_responses(responses).contains(handshake_result(responses[i]@)->Ok_0),
    decreases responses.len(),
{
    if i == responses.len() - 1 {
        let all = devices_from_responses(responses);
        assert(all.last() == handshake_result(responses[i]@)->Ok_0);
        assert(all.contains(all[all.len() - 1]));
    } else {
        lemma_accepted_endpoint_included(responses.drop_last(), i);
        let prefix = devices_from_responses(responses.drop_last());
        let j = choose|j: int| 0 <= j < prefix.len() && prefix[j] == handshake_result(
            responses[i]@,
        )->Ok_0;
        assert(devices_from_responses(responses)[j] == prefix[j]);
        assert(devices_from_responses(responses).contains(prefix[j]));
    }
}

} // verus!
