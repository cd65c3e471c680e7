use vstd::prelude::*;

use crate::error::Error;

verus! {

/// Service holding the live data, mode and firmware characteristics.
pub const SERVICE_DATA_ID: u16 = 49;
/// Realtime-mode toggle.
pub const CHARACTERISTIC_MODE_ID: u16 = 50;
/// Live sensor data.
pub const CHARACTERISTIC_DATA_ID: u16 = 52;
/// Battery level and firmware version.
pub const CHARACTERISTIC_FIRMWARE_ID: u16 = 0x37;
/// Service holding the history characteristics.
pub const SERVICE_HISTORY_ID: u16 = 58;
/// History control: commands are written here.
pub const CHARACTERISTIC_HISTORY_CTRL_ID: u16 = 61;
/// History length and entries are read here.
pub const CHARACTERISTIC_HISTORY_READ_ID: u16 = 59;
/// Seconds since the device booted.
pub const CHARACTERISTIC_HISTORY_TIME_ID: u16 = 64;

/// Leading byte of the command that selects one history entry.
pub const HISTORY_ENTRY_PREFIX: u8 = 0xa1;

/// A characteristic, named by its service id and its own id.
#[derive(Debug, Clone, Copy, PartialEq, Eq)]
pub struct CharacteristicAddress {
    pub service_id: u16,
    pub characteristic_id: u16,
}

pub open spec fn addr(service_id: u16, characteristic_id: u16) -> CharacteristicAddress {
    CharacteristicAddress { service_id, characteristic_id }
}

pub open spec fn mode_char() -> CharacteristicAddress {
    addr(SERVICE_DATA_ID, CHARACTERISTIC_MODE_ID)
}

pub open spec fn data_char() -> CharacteristicAddress {
    addr(SERVICE_DATA_ID, CHARACTERISTIC_DATA_ID)
}

pub open spec fn firmware_char() -> CharacteristicAddress {
    addr(SERVICE_DATA_ID, CHARACTERISTIC_FIRMWARE_ID)
}

pub open spec fn control_char() -> CharacteristicAddress {
    addr(SERVICE_HISTORY_ID, CHARACTERISTIC_HISTORY_CTRL_ID)
}

pub open spec fn entry_char() -> CharacteristicAddress {
    addr(SERVICE_HISTORY_ID, CHARACTERISTIC_HISTORY_READ_ID)
}

pub open spec fn clock_char() -> CharacteristicAddress {
    addr(SERVICE_HISTORY_ID, CHARACTERISTIC_HISTORY_TIME_ID)
}

impl CharacteristicAddress {
    /// The realtime-mode toggle.
    pub fn mode() -> (r: CharacteristicAddress)
        ensures
            r == mode_char(),
    {
        CharacteristicAddress {
            service_id: SERVICE_DATA_ID,
            characteristic_id: CHARACTERISTIC_MODE_ID,
        }
    }

    /// The live sensor data.
    pub fn data() -> (r: CharacteristicAddress)
        ensures
            r == data_char(),
    {
        CharacteristicAddress {
            service_id: SERVICE_DATA_ID,
            characteristic_id: CHARACTERISTIC_DATA_ID,
        }
    }

    /// Battery level and firmware version.
    pub fn firmware() -> (r: CharacteristicAddress)
        ensures
            r == firmware_char(),
    {
        CharacteristicAddress {
            service_id: SERVICE_DATA_ID,
            characteristic_id: CHARACTERISTIC_FIRMWARE_ID,
        }
    }

    /// The history control characteristic.
    pub fn history_control() -> (r: CharacteristicAddress)
        ensures
            r == control_char(),
    {
        CharacteristicAddress {
            service_id: SERVICE_HISTORY_ID,
            characteristic_id: CHARACTERISTIC_HISTORY_CTRL_ID,
        }
    }

    /// The history length / entry characteristic.
    pub fn history_read() -> (r: CharacteristicAddress)
        ensures
            r == entry_char(),
    {
        CharacteristicAddress {
            service_id: SERVICE_HISTORY_ID,
            characteristic_id: CHARACTERISTIC_HISTORY_READ_ID,
        }
    }

    /// The device clock (seconds since boot).
    pub fn history_time() -> (r: CharacteristicAddress)
        ensures
            r == clock_char(),
    {
        CharacteristicAddress {
            service_id: SERVICE_HISTORY_ID,
            characteristic_id: CHARACTERISTIC_HISTORY_TIME_ID,
        }
    }
}

pub open spec fn realtime_enable_bytes() -> Seq<u8> {
    seq![0xa0u8, 0x1fu8]
}

pub open spec fn realtime_disable_bytes() -> Seq<u8> {
    seq![0xc0u8, 0x1fu8]
}

pub open spec fn history_init_bytes() -> Seq<u8> {
    seq![0xa0u8, 0x00u8, 0x00u8]
}

pub open spec fn history_success_bytes() -> Seq<u8> {
    seq![0xa2u8, 0x00u8, 0x00u8]
}

pub open spec fn history_failed_bytes() -> Seq<u8> {
    seq![0xa3u8, 0x00u8, 0x00u8]
}

/// The command selecting history entry `index`: the prefix, then the index
/// in little-endian order.
pub open spec fn entry_address_bytes(index: u16) -> Seq<u8> {
    seq![HISTORY_ENTRY_PREFIX, (index % 256) as u8, (index / 256) as u8]
}

/// Switches the data characteristic to live values.
pub fn cmd_realtime_enable() -> (r: Vec<u8>)
    ensures
        r@ == realtime_enable_bytes(),
{
    vec![0xa0u8, 0x1f]
}

/// Switches the data characteristic back to cached values.
pub fn cmd_realtime_disable() -> (r: Vec<u8>)
    ensures
        r@ == realtime_disable_bytes(),
{
    vec![0xc0u8, 0x1f]
}

/// Starts a history read.
pub fn cmd_history_read_init() -> (r: Vec<u8>)
    ensures
        r@ == history_init_bytes(),
{
    vec![0xa0u8, 0x00, 0x00]
}

/// Acknowledges a history read; the device then clears its history.
pub fn cmd_history_read_success() -> (r: Vec<u8>)
    ensures
        r@ == history_success_bytes(),
{
    vec![0xa2u8, 0x00, 0x00]
}

/// Reports a failed history read.
pub fn cmd_history_read_failed() -> (r: Vec<u8>)
    ensures
        r@ == history_failed_bytes(),
{
    vec![0xa3u8, 0x00, 0x00]
}

/// Selects history entry `index`.
pub fn historical_entry_address(index: u16) -> (r: Vec<u8>)
    ensures
        r@ == entry_address_bytes(index),
{
    vec![HISTORY_ENTRY_PREFIX, (index % 256) as u8, (index / 256) as u8]
}

} // verus!
