use vstd::prelude::*;

verus! {

/// Standard CAN identifier of the frame that carries the oil temperature.
pub const OIL_TEMP_CAN_ID: u16 = 0x3E0;

/// Standard CAN identifier of the frame that carries the oil pressure.
pub const OIL_PRESSURE_CAN_ID: u16 = 0x361;

/// Acceptance mask that makes a filter compare all eleven bits of a standard identifier.
pub const FILTER_MASK: u16 = 0x7FF;

/// Largest standard (eleven-bit) CAN identifier.
pub const STANDARD_ID_MAX: u16 = 0x7FF;

} // verus!
