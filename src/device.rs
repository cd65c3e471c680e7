use vstd::prelude::*;

use crate::codec::{system_of, System, SYSTEM_LEN};
use crate::error::Error;
use crate::protocol::{
    cmd_history_read_success, control_char, firmware_char, history_success_bytes,
    CharacteristicAddress,
};
use crate::transport::{
    read_error, read_failure, write_error, write_failure, Command, CommandView, Reply,
};

verus! {

/// Short-form UUID that the supported sensors advertise service data under.
pub const DEVICE_UUID_PREFIX: u32 = 0xfe95;

/// The first 32 bits of a 128-bit UUID, which hold a short-form UUID.
pub open spec fn short_form(uuid: u128) -> int {
    uuid as int / 0x1_0000_0000_0000_0000_0000_0000
}

/// The short form held in the first 32 bits of `uuid`.
pub fn uuid_short_form(uuid: u128) -> (r: u32)
    ensures
        r == short_form(uuid),
{
    (uuid / 0x1_0000_0000_0000_0000_0000_0000u128) as u32
}

/// One of `uuids` has the supported sensors' short form.
pub open spec fn lists_supported(uuids: Seq<u128>) -> bool {
    exists|i: int| 0 <= i < uuids.len() && short_form(#[trigger] uuids[i]) == DEVICE_UUID_PREFIX
}

/// Whether one of `uuids` has the supported sensors' short form.
fn has_supported_uuid(uuids: &Vec<u128>) -> (r: bool)
    ensures
        r == lists_supported(uuids@),
{
    let mut i: usize = 0;
    while i < uuids.len()
        invariant
            i <= uuids@.len(),
            forall|k: int| 0 <= k < i ==> short_form(#[trigger] uuids@[k]) != DEVICE_UUID_PREFIX,
        decreases uuids@.len() - i,
    {
        if uuid_short_form(uuids[i]) == DEVICE_UUID_PREFIX {
            assert(short_form(uuids@[i as int]) == DEVICE_UUID_PREFIX);
            return true;
        }
        i = i + 1;
    }
    false
}

/// Whether the UUIDs of a device's service data identify a supported sensor.
/// `None` means the device advertises no service data; an empty list counts
/// the same.
pub fn is_miflora_device(service_data: &Option<Vec<u128>>) -> (r: Result<bool, Error>)
    ensures
        match service_data {
            None => r == Err::<bool, Error>(Error::NoServiceData),
            Some(uuids) => if uuids@.len() == 0 {
                r == Err::<bool, Error>(Error::NoServiceData)
            } else {
                r == Ok::<bool, Error>(lists_supported(uuids@))
            },
        },
{
    match service_data {
        None => Err(Error::NoServiceData),
        Some(uuids) => {
            if uuids.len() == 0 {
                return Err(Error::NoServiceData);
            }
            Ok(has_supported_uuid(uuids))
        },
    }
}

/// Accepts a device whose service data identifies a supported sensor:
/// `NoServiceData` when it advertises none, `DeviceNotSupported` when none of
/// its UUIDs has the sensors' short form.
pub fn identify_device(service_data: &Option<Vec<u128>>) -> (r: Result<(), Error>)
    ensures
        match service_data {
            None => r == Err::<(), Error>(Error::NoServiceData),
            Some(uuids) => if uuids@.len() == 0 {
                r == Err::<(), Error>(Error::NoServiceData)
            } else if lists_supported(uuids@) {
                r == Ok::<(), Error>(())
            } else {
                r == Err::<(), Error>(Error::DeviceNotSupported)
            },
        },
{
    match is_miflora_device(service_data) {
        Err(e) => Err(e),
        Ok(true) => Ok(()),
        Ok(false) => Err(Error::DeviceNotSupported),
    }
}

/// The command that reads battery level and firmware version.
pub fn system_request() -> (r: Command)
    ensures
        r@ == CommandView::Read(firmware_char()),
{
    Command::Read(CharacteristicAddress::firmware())
}

/// The device information from the reply to `system_request`.
pub fn system_from_reply(reply: Reply) -> (r: Result<System, Error>)
    ensures
        match reply.result {
            Err(f) => r == Err::<System, Error>(read_error(firmware_char(), f)),
            Ok(d) => if d@.len() < SYSTEM_LEN {
                r == Err::<System, Error>(
                    Error::PayloadTooShort { expected: SYSTEM_LEN, actual: d@.len() as usize },
                )
            } else {
                r is Ok && r->Ok_0@ == system_of(d@)
            },
        },
{
    match reply.result {
        Err(f) => Err(read_failure(CharacteristicAddress::firmware(), f)),
        Ok(d) => System::decode(&d),
    }
}

/// The command that acknowledges the history, which the device then clears.
/// It is never issued by a history read itself.
pub fn clear_history_request() -> (r: Command)
    ensures
        r@ == CommandView::Write(control_char(), history_success_bytes()),
{
    Command::Write(CharacteristicAddress::history_control(), cmd_history_read_success())
}

/// The outcome of clearing the history, from the reply to
/// `clear_history_request`.
pub fn clear_history_from_reply(reply: Reply) -> (r: Result<(), Error>)
    ensures
        match reply.result {
            Err(f) => r == Err::<(), Error>(write_error(control_char(), f)),
            Ok(_) => r == Ok::<(), Error>(()),
        },
{
    match reply.result {
        Err(f) => Err(write_failure(CharacteristicAddress::history_control(), f)),
        Ok(_) => Ok(()),
    }
}

} // verus!
