//! Fixed values of the wire protocol and of the engine.

use vstd::prelude::*;

verus! {

/// UUID of the vendor's power service: `00001523-1212-efde-1523-785feabcd124`.
pub const LHV2_GATT_POWER_SERVICE: u128 = 0x0000_1523_1212_efde_1523_785f_eabc_d124;

/// UUID of the power characteristic within that service:
/// `00001525-1212-efde-1523-785feabcd124`.
pub const LHV2_GATT_POWER_CHARACTERISTIC: u128 = 0x0000_1525_1212_efde_1523_785f_eabc_d124;

/// Capacity of the channel that carries messages to the consumer. One slot: a
/// producer waits until the previous message has been taken.
pub const CHANNEL_CAPACITY: usize = 1;

/// Seconds that a power command waits for the next notification before it gives
/// up on a device that never reports a final state.
pub const DEFAULT_NOTIFICATION_WAIT_SECS: u64 = 30;

} // verus!
