//! The RPM gauge device: its negotiated capability and the command buffers
//! it understands. Every command is a fixed-size buffer whose byte 0 is the
//! report id (always zero); the surrounding task writes the buffer to the
//! HID transport.

use vstd::prelude::*;

verus! {

/// An RPM gauge that passed handshake validation. The HID connection itself
/// lives with the surrounding task; this value carries the negotiated
/// capability that every command depends on.
#[derive(Debug, Clone, Copy, PartialEq, Eq, Structural)]
pub struct RpmGauge {
    /// The value ceiling negotiated during the handshake.
    pub max_rpm: u16,
}

/// The heartbeat command buffer: report id 0, command code 1.
pub open spec fn heartbeat_command() -> Seq<u8> {
    seq![0u8, 1u8]
}

/// The update-value command buffer for a device whose negotiated ceiling is
/// `max_rpm`: report id 0, command code 2, then the requested value —
/// clamped to the ceiling — in little-endian order.
pub open spec fn update_command(rpm: u16, max_rpm: u16) -> Seq<u8> {
    let v = if rpm < max_rpm {
        rpm
    } else {
        max_rpm
    };
    seq![0u8, 2u8, (v % 256) as u8, (v / 256) as u8]
}

impl RpmGauge {
    pub fn new(max_rpm: u16) -> (r: RpmGauge)
        ensures
            r.max_rpm == max_rpm,
    {
        RpmGauge { max_rpm }
    }

    /// Encodes one keep-alive command.
    pub fn heartbeat(&self) -> (r: Vec<u8>)
        ensures
            r@ == heartbeat_command(),
    {
        let r: Vec<u8> = vec![0u8, 1u8];
        proof {
            assert(r@ =~= heartbeat_command());
        }
        r
    }

    /// Encodes one update-value command. A requested value above the
    /// negotiated ceiling is clamped: the buffer then encodes exactly
    /// `max_rpm`.
    pub fn update_rpm(&self, rpm: u16) -> (r: Vec<u8>)
        ensures
            r@ == update_command(rpm, self.max_rpm),
            rpm > self.max_rpm ==> r@ == update_command(self.max_rpm, self.max_rpm),
    {
        let v: u16 = if rpm < self.max_rpm {
            rpm
        } else {
            self.max_rpm
        };
        let r: Vec<u8> = vec![0u8, 2u8, (v % 256) as u8, (v / 256) as u8];
        proof {
            assert(r@ =~= update_command(rpm, self.max_rpm));
        }
        r
    }
}

} // verus!
