//! Addressing and timing of a CAN diagnostic channel with ISO 15765 style
//! segmentation.
use vstd::prelude::*;

verus! {

/// Largest CAN identifier in the 11-bit format.
pub const MAX_STANDARD_ID: u32 = 0x7FF;

/// Largest CAN identifier in the 29-bit format.
pub const MAX_EXTENDED_ID: u32 = 0x1FFF_FFFF;

/// Largest value of a one-byte transport parameter (block size, separation time).
pub const MAX_TRANSPORT_BYTE: u32 = 0xFF;

/// Width of the CAN identifiers on the channel.
#[derive(Clone, Copy, Debug, PartialEq, Eq, Structural)]
pub enum IdFormat {
    Standard,
    Extended,
}

/// Whether requests go to one ECU or to all ECUs listening on the bus.
#[derive(Clone, Copy, Debug, PartialEq, Eq, Structural)]
pub enum AddressingMode {
    Physical,
    Functional,
}

/// A diagnostic channel's addressing and timing.
#[derive(Clone, Copy, Debug, PartialEq, Eq, Structural)]
pub struct TransportConfig {
    /// CAN identifier the tester sends on.
    pub send_id: u32,
    /// CAN identifier the ECU answers on.
    pub recv_id: u32,
    pub id_format: IdFormat,
    /// Bus speed in bits per second.
    pub baud: u32,
    /// Frames the ECU may send between flow-control frames (0: no limit).
    pub block_size: u32,
    /// Minimum gap between consecutive frames, as the transport byte encodes it.
    pub sep_time_min: u32,
    pub addressing: AddressingMode,
}

/// The largest identifier that an identifier format allows.
pub open spec fn max_id(f: IdFormat) -> u32 {
    match f {
        IdFormat::Standard => MAX_STANDARD_ID,
        IdFormat::Extended => MAX_EXTENDED_ID,
    }
}

impl TransportConfig {
    /// Both identifiers fit the identifier format, the bus speed is not zero, and
    /// block size and separation time fit the one-byte fields of the transport.
    pub open spec fn valid(&self) -> bool {
        &&& self.send_id <= max_id(self.id_format)
        &&& self.recv_id <= max_id(self.id_format)
        &&& self.baud > 0
        &&& self.block_size <= MAX_TRANSPORT_BYTE
        &&& self.sep_time_min <= MAX_TRANSPORT_BYTE
    }

    pub fn is_valid(&self) -> (r: bool)
        ensures
            r == self.valid(),
    {
        let max = match self.id_format {
            IdFormat::Standard => MAX_STANDARD_ID,
            IdFormat::Extended => MAX_EXTENDED_ID,
        };
        self.send_id <= max && self.recv_id <= max && self.baud > 0
            && self.block_size <= MAX_TRANSPORT_BYTE && self.sep_time_min <= MAX_TRANSPORT_BYTE
    }
}

} // verus!
