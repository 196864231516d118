//! Decoder for the OutGauge-style datagram that BeamNG.drive broadcasts over
//! UDP. The wire record is a fixed little-endian layout; every field is read
//! explicitly from the byte slice, so no length or alignment assumption is
//! left unchecked. Floating-point quantities are carried through as their raw
//! 32-bit bit patterns (see [`crate::telemetry`]).

use vstd::prelude::*;
use crate::telemetry::{GameId, Telemetry, TelemetryEngine, TelemetryGeneral, TelemetryInput};
use crate::wire::{le16, le32, read_le_u16, read_le_u32};

verus! {

/// Total size in bytes of one wire record.
pub const OUTGAUGE_SIZE: usize = 96;

/// Flag bit in `DataOutGauge::flags`: the vehicle has a turbo and its
/// pressure field is meaningful.
pub const FLAG_TURBO: u16 = 8192;

/// The wire record, field for field, with each 32-bit float carried as its
/// raw bit pattern.
#[derive(Debug, PartialEq)]
pub struct DataOutGauge {
    /// Hardcoded to 0 by the simulator.
    pub time: u32,
    /// 4-byte source tag; hardcoded to "beam".
    pub name: Vec<u8>,
    /// Bitmask; only `FLAG_TURBO` is read.
    pub flags: u16,
    /// Wire gear code: 0 = reverse, 1 = neutral, 2 = first, and so on.
    pub gear: u8,
    /// Player id; hardcoded to 0.
    pub plid: u8,
    /// Speed in m/s (float bits).
    pub speed: u32,
    /// Engine speed in RPM (float bits).
    pub rpm: u32,
    /// Turbo pressure in bar (float bits); meaningful only with `FLAG_TURBO`.
    pub turbo: u32,
    /// Engine temperature in Celsius (float bits).
    pub engine_temp: u32,
    /// Fuel fraction 0..1 (float bits).
    pub fuel: u32,
    /// Oil pressure in bar (float bits); hardcoded to 0.
    pub oil_pressure: u32,
    /// Oil temperature in Celsius (float bits).
    pub oil_temp: u32,
    /// Dashboard lights available on this car.
    pub dash_lights: u32,
    /// Which of `dash_lights` are currently on.
    pub show_lights: u32,
    /// Throttle position 0..1 (float bits).
    pub throttle: u32,
    /// Brake position 0..1 (float bits).
    pub brake: u32,
    /// Clutch position 0..1 (float bits).
    pub clutch: u32,
    /// 16-byte display line; empty on this simulator.
    pub display1: Vec<u8>,
    /// 16-byte display line; empty on this simulator.
    pub display2: Vec<u8>,
    /// Raw little-endian value of the trailing 32-bit id field.
    pub outgauge_id: u32,
}

/// Reinterprets the leading `OUTGAUGE_SIZE` bytes of a datagram as a wire
/// record. A datagram shorter than the record size yields no record — never
/// a panic or an out-of-bounds read.
pub fn decode_outgauge(data: &[u8]) -> (r: Option<DataOutGauge>)
    ensures
        data@.len() < OUTGAUGE_SIZE ==> r is None,
        data@.len() >= OUTGAUGE_SIZE ==> {
            &&& r is Some
            &&& r->0.time == le32(data@, 0)
            &&& r->0.name@ == data@.subrange(4, 8)
            &&& r->0.flags == le16(data@, 8)
            &&& r->0.gear == data@[10]
            &&& r->0.plid == data@[11]
            &&& r->0.speed == le32(data@, 12)
            &&& r->0.rpm == le32(data@, 16)
            &&& r->0.turbo == le32(data@, 20)
            &&& r->0.engine_temp == le32(data@, 24)
            &&& r->0.fuel == le32(data@, 28)
            &&& r->0.oil_pressure == le32(data@, 32)
            &&& r->0.oil_temp == le32(data@, 36)
            &&& r->0.dash_lights == le32(data@, 40)
            &&& r->0.show_lights == le32(data@, 44)
            &&& r->0.throttle == le32(data@, 48)
            &&& r->0.brake == le32(data@, 52)
            &&& r->0.clutch == le32(data@, 56)
            &&& r->0.display1@ == data@.subrange(60, 76)
            &&& r->0.display2@ == data@.subrange(76, 92)
            &&& r->0.outgauge_id == le32(data@, 92)
        },
{
    if data.len() < OUTGAUGE_SIZE {
        return None;
    }
    Some(DataOutGauge {
        time: read_le_u32(data, 0),
        name: vstd::slice::slice_to_vec(vstd::slice::slice_subrange(data, 4, 8)),
        flags: read_le_u16(data, 8),
        gear: data[10],
        plid: data[11],
        speed: read_le_u32(data, 12),
        rpm: read_le_u32(data, 16),
        turbo: read_le_u32(data, 20),
        engine_temp: read_le_u32(data, 24),
        fuel: read_le_u32(data, 28),
        oil_pressure: read_le_u32(data, 32),
        oil_temp: read_le_u32(data, 36),
        dash_lights: read_le_u32(data, 40),
        show_lights: read_le_u32(data, 44),
        throttle: read_le_u32(data, 48),
        brake: read_le_u32(data, 52),
        clutch: read_le_u32(data, 56),
        display1: vstd::slice::slice_to_vec(vstd::slice::slice_subrange(data, 60, 76)),
        display2: vstd::slice::slice_to_vec(vstd::slice::slice_subrange(data, 76, 92)),
        outgauge_id: read_le_u32(data, 92),
    })
}

/// Normalizes one wire record into a [`Telemetry`] snapshot: the wire gear
/// code (0 = reverse, 1 = neutral, 2 = first, ...) is remapped to a signed
/// gear by subtracting one, and the turbo pressure is kept only when the
/// record's `FLAG_TURBO` bit is set.
pub fn telemetry_from_outgauge(raw: &DataOutGauge) -> (r: Telemetry)
    ensures
        r.game == Some(GameId::BeamNg),
        r.general.gear == raw.gear as int - 1,
        r.general.fuel == raw.fuel,
        r.general.speed == raw.speed,
        r.engine.rpm == raw.rpm,
        r.engine.turbo == (if raw.flags & FLAG_TURBO != 0 {
            Some(raw.turbo)
        } else {
            None::<u32>
        }),
        r.input.throttle == raw.throttle,
        r.input.brake == raw.brake,
        r.input.clutch == raw.clutch,
{
    let turbo: Option<u32> = if raw.flags & FLAG_TURBO != 0 {
        Some(raw.turbo)
    } else {
        None
    };
    Telemetry {
        game: Some(GameId::BeamNg),
        general: TelemetryGeneral {
            gear: (raw.gear as isize) - 1,
            fuel: raw.fuel,
            speed: raw.speed,
        },
        engine: TelemetryEngine { rpm: raw.rpm, turbo },
        input: TelemetryInput {
            throttle: raw.throttle,
            brake: raw.brake,
            clutch: raw.clutch,
        },
    }
}

/// One full decode step of the BeamNG source adapter: one datagram in,
/// exactly one snapshot out, or no snapshot when the datagram is shorter
/// than the record size.
pub fn decode_datagram(data: &[u8]) -> (r: Option<Telemetry>)
    ensures
        data@.len() < OUTGAUGE_SIZE ==> r is None,
        data@.len() >= OUTGAUGE_SIZE ==> {
            &&& r is Some
            &&& r->0.game == Some(GameId::BeamNg)
            &&& r->0.general.gear == data@[10] as int - 1
            &&& r->0.general.fuel == le32(data@, 28)
            &&& r->0.general.speed == le32(data@, 12)
            &&& r->0.engine.rpm == le32(data@, 16)
            &&& r->0.engine.turbo == (if le16(data@, 8) & FLAG_TURBO != 0 {
                Some(le32(data@, 20))
            } else {
                None::<u32>
            })
            &&& r->0.input.throttle == le32(data@, 48)
            &&& r->0.input.brake == le32(data@, 52)
            &&& r->0.input.clutch == le32(data@, 56)
        },
{
    match decode_outgauge(data) {
        None => None,
        Some(raw) => Some(telemetry_from_outgauge(&raw)),
    }
}

} // verus!
