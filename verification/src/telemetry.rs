use vstd::prelude::*;

verus! {

/// Identifier of a supported simulation, as selected by source discovery.
/// Adding a simulation means adding one variant here, one entry to the
/// discovery table, and one decoder; the acquisition loop is unchanged.
#[derive(Debug, Clone, Copy, PartialEq, Eq, Structural)]
pub enum GameId {
    BeamNg,
}

/// One normalized telemetry snapshot, constructed fresh on each successful
/// decode and replaced wholesale by the acquisition loop.
///
/// The simulator transmits several quantities as 32-bit IEEE-754 floats.
/// This library never interprets those numbers; it carries each one as the
/// raw little-endian bit pattern read from the wire (a `u32`), and the
/// presentation layer converts the bits to a floating-point value when it
/// needs one.
#[derive(Debug, Clone, Copy, PartialEq)]
pub struct Telemetry {
    /// Which simulation produced this snapshot; `None` is the sentinel
    /// meaning "no source connected". Consumers must tolerate all-zero
    /// values as legitimate data, so nothing else marks the sentinel.
    pub game: Option<GameId>,
    pub general: TelemetryGeneral,
    pub engine: TelemetryEngine,
    pub input: TelemetryInput,
}

#[derive(Debug, Clone, Copy, PartialEq)]
pub struct TelemetryGeneral {
    /// Signed gear: negative = reverse, 0 = neutral, 1 = first, and so on.
    pub gear: isize,
    /// Fuel fraction in 0..1, as raw float bits.
    pub fuel: u32,
    /// Speed in meters per second, as raw float bits.
    pub speed: u32,
}

#[derive(Debug, Clone, Copy, PartialEq)]
pub struct TelemetryEngine {
    /// Engine speed in revolutions per minute, as raw float bits.
    pub rpm: u32,
    /// Turbo pressure in bar, as raw float bits; `None` if the vehicle
    /// reports no turbo.
    pub turbo: Option<u32>,
}

#[derive(Debug, Clone, Copy, PartialEq)]
pub struct TelemetryInput {
    /// Throttle position in 0..1, as raw float bits.
    pub throttle: u32,
    /// Brake position in 0..1, as raw float bits.
    pub brake: u32,
    /// Clutch position in 0..1, as raw float bits.
    pub clutch: u32,
}

impl Telemetry {
    /// The all-zero snapshot published while no source is connected.
    pub open spec fn sentinel() -> Telemetry {
        Telemetry {
            game: None,
            general: TelemetryGeneral { gear: 0, fuel: 0, speed: 0 },
            engine: TelemetryEngine { rpm: 0, turbo: None },
            input: TelemetryInput { throttle: 0, brake: 0, clutch: 0 },
        }
    }
}

impl Default for Telemetry {
    fn default() -> (r: Self)
        ensures
            r == Telemetry::sentinel(),
    {
        Telemetry {
            game: None,
            general: TelemetryGeneral { gear: 0, fuel: 0, speed: 0 },
            engine: TelemetryEngine { rpm: 0, turbo: None },
            input: TelemetryInput { throttle: 0, brake: 0, clutch: 0 },
        }
    }
}

} // verus!
