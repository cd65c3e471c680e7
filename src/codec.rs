use vstd::prelude::*;

use vstd::slice::slice_subrange;
use vstd::utf8::{decode_utf8, valid_utf8};

use crate::error::Error;

verus! {

/// The text that `String::from_utf8_lossy` makes of a byte sequence.
pub uninterp spec fn lossy_text_of(b: Seq<u8>) -> Seq<char>;

/// Relies on `String::from_utf8_lossy`: the result depends on the bytes
/// alone, and valid UTF-8 comes back as the text it encodes.
#[verifier::external_body]
fn utf8_lossy(b: &[u8]) -> (r: String)
    ensures
        r@ == lossy_text_of(b@),
        valid_utf8(b@) ==> r@ == decode_utf8(b@),
{
    String::from_utf8_lossy(b).into_owned()
}

/// Little-endian value of two bytes.
pub open spec fn le16(b0: u8, b1: u8) -> int {
    b0 + 256 * b1
}

/// Little-endian value of four bytes.
pub open spec fn le32(b0: u8, b1: u8, b2: u8, b3: u8) -> int {
    b0 + 256 * b1 + 65536 * b2 + 16777216 * b3
}

fn u16_from_le(b0: u8, b1: u8) -> (r: u16)
    ensures
        r == le16(b0, b1),
{
    b0 as u16 + (b1 as u16) * 256
}

fn u32_from_le(b0: u8, b1: u8, b2: u8, b3: u8) -> (r: u32)
    ensures
        r == le32(b0, b1, b2, b3),
{
    b0 as u32 + (b1 as u32) * 256 + (b2 as u32) * 65536 + (b3 as u32) * 16777216
}

/// Minimum length of a live sensor payload.
pub const REALTIME_LEN: usize = 10;

/// What a live sensor payload holds.
pub struct RealtimeView {
    pub temperature: u16,
    pub brightness: u32,
    pub moisture: u8,
    pub conductivity: u16,
}

/// The live reading encoded in `b` (at least ten bytes).
pub open spec fn realtime_of(b: Seq<u8>) -> RealtimeView {
    RealtimeView {
        temperature: le16(b[0], b[1]) as u16,
        brightness: le32(b[3], b[4], b[5], b[6]) as u32,
        moisture: b[7],
        conductivity: le16(b[8], b[9]) as u16,
    }
}

/// A live sensor snapshot.
#[derive(Debug, Clone)]
pub struct RealtimeEntry {
    temperature: u16,
    brightness: u32,
    moisture: u8,
    conductivity: u16,
}

impl View for RealtimeEntry {
    type V = RealtimeView;

    closed spec fn view(&self) -> RealtimeView {
        RealtimeView {
            temperature: self.temperature,
            brightness: self.brightness,
            moisture: self.moisture,
            conductivity: self.conductivity,
        }
    }
}

impl RealtimeEntry {
    /// Decodes a live payload: bytes 0-1 temperature, 3-6 brightness, 7
    /// moisture, 8-9 conductivity, all little-endian.
    pub fn decode(data: &Vec<u8>) -> (r: Result<RealtimeEntry, Error>)
        ensures
            data@.len() < REALTIME_LEN ==> r == Err::<RealtimeEntry, Error>(
                Error::PayloadTooShort { expected: REALTIME_LEN, actual: data@.len() as usize },
            ),
            data@.len() >= REALTIME_LEN ==> r is Ok && r->Ok_0@ == realtime_of(data@),
    {
        if data.len() < REALTIME_LEN {
            return Err(Error::PayloadTooShort { expected: REALTIME_LEN, actual: data.len() });
        }
        Ok(RealtimeEntry {
            temperature: u16_from_le(data[0], data[1]),
            brightness: u32_from_le(data[3], data[4], data[5], data[6]),
            moisture: data[7],
            conductivity: u16_from_le(data[8], data[9]),
        })
    }

    /// Temperature in tenths of a degree Celsius.
    pub fn temperature(&self) -> (r: u16)
        ensures
            r == self@.temperature,
    {
        self.temperature
    }

    /// Brightness in lux.
    pub fn brightness(&self) -> (r: u32)
        ensures
            r == self@.brightness,
    {
        self.brightness
    }

    /// Soil moisture in percent.
    pub fn moisture(&self) -> (r: u8)
        ensures
            r == self@.moisture,
    {
        self.moisture
    }

    /// Soil conductivity in microsiemens per centimetre.
    pub fn conductivity(&self) -> (r: u16)
        ensures
            r == self@.conductivity,
    {
        self.conductivity
    }
}

/// Minimum length of a device information payload.
pub const SYSTEM_LEN: usize = 3;

/// What a device information payload holds.
pub struct SystemView {
    pub battery: u8,
    pub firmware: Seq<char>,
}

/// The device information encoded in `b` (at least three bytes): the battery
/// level in byte 0 and the firmware version as text from byte 2 on.
pub open spec fn system_of(b: Seq<u8>) -> SystemView {
    SystemView { battery: b[0], firmware: lossy_text_of(b.subrange(2, b.len() as int)) }
}

/// Battery level and firmware version of a device.
#[derive(Debug, Clone)]
pub struct System {
    battery: u8,
    firmware: String,
}

impl View for System {
    type V = SystemView;

    closed spec fn view(&self) -> SystemView {
        SystemView { battery: self.battery, firmware: self.firmware@ }
    }
}

impl System {
    /// Decodes a device information payload.
    pub fn decode(data: &Vec<u8>) -> (r: Result<System, Error>)
        ensures
            data@.len() < SYSTEM_LEN ==> r == Err::<System, Error>(
                Error::PayloadTooShort { expected: SYSTEM_LEN, actual: data@.len() as usize },
            ),
            data@.len() >= SYSTEM_LEN ==> r is Ok && r->Ok_0@ == system_of(data@),
    {
        if data.len() < SYSTEM_LEN {
            return Err(Error::PayloadTooShort { expected: SYSTEM_LEN, actual: data.len() });
        }
        let firmware = utf8_lossy(slice_subrange(data.as_slice(), 2, data.len()));
        Ok(System { battery: data[0], firmware })
    }

    /// Battery level in percent (the device is expected to report 0 to 100).
    pub fn battery(&self) -> (r: u8)
        ensures
            r == self@.battery,
    {
        self.battery
    }

    /// Firmware version text.
    pub fn firmware(&self) -> (r: String)
        ensures
            r@ == self@.firmware,
    {
        self.firmware.clone()
    }
}

/// Minimum length of a historical entry payload.
pub const HISTORICAL_LEN: usize = 14;

/// A historical entry: the epoch shared by its batch and the raw payload.
pub struct HistoricalView {
    pub epoch_time: u64,
    pub raw: Seq<u8>,
}

impl HistoricalView {
    /// Seconds between the device's boot and this entry (bytes 0-3).
    pub open spec fn offset(self) -> int {
        le32(self.raw[0], self.raw[1], self.raw[2], self.raw[3])
    }

    /// Wall-clock time of the entry, in seconds since the Unix epoch.
    pub open spec fn timestamp(self) -> int {
        self.epoch_time + self.offset()
    }

    /// Temperature in tenths of a degree Celsius (bytes 4-5).
    pub open spec fn temperature(self) -> int {
        le16(self.raw[4], self.raw[5])
    }

    /// Brightness in lux (bytes 7-9, high byte zero).
    pub open spec fn brightness(self) -> int {
        le32(self.raw[7], self.raw[8], self.raw[9], 0)
    }

    /// Soil moisture in percent (byte 11).
    pub open spec fn moisture(self) -> int {
        self.raw[11] as int
    }

    /// Soil conductivity in microsiemens per centimetre (bytes 12-13).
    pub open spec fn conductivity(self) -> int {
        le16(self.raw[12], self.raw[13])
    }
}

/// A sensor snapshot stored on the device, with the epoch of its batch.
#[derive(Debug)]
pub struct HistoricalEntry {
    epoch_time: u64,
    raw: Vec<u8>,
}

impl View for HistoricalEntry {
    type V = HistoricalView;

    closed spec fn view(&self) -> HistoricalView {
        HistoricalView { epoch_time: self.epoch_time, raw: self.raw@ }
    }
}

impl Clone for HistoricalEntry {
    fn clone(&self) -> (r: HistoricalEntry)
        ensures
            r@ == self@,
    {
        proof {
            use_type_invariant(self);
        }
        HistoricalEntry { epoch_time: self.epoch_time, raw: self.raw.clone() }
    }
}

impl HistoricalEntry {
    #[verifier::type_invariant]
    spec fn long_enough(self) -> bool {
        self.raw@.len() >= HISTORICAL_LEN
    }

    /// Decodes a historical payload; every entry of one history read is given
    /// the same `epoch_time`.
    pub fn decode(data: Vec<u8>, epoch_time: u64) -> (r: Result<HistoricalEntry, Error>)
        ensures
            data@.len() < HISTORICAL_LEN ==> r == Err::<HistoricalEntry, Error>(
                Error::PayloadTooShort { expected: HISTORICAL_LEN, actual: data@.len() as usize },
            ),
            data@.len() >= HISTORICAL_LEN ==> r is Ok && r->Ok_0@ == (HistoricalView {
                epoch_time,
                raw: data@,
            }),
    {
        if data.len() < HISTORICAL_LEN {
            return Err(Error::PayloadTooShort { expected: HISTORICAL_LEN, actual: data.len() });
        }
        Ok(HistoricalEntry { epoch_time, raw: data })
    }

    /// The epoch shared by the entries of one history read.
    pub fn epoch_time(&self) -> (r: u64)
        ensures
            r == self@.epoch_time,
    {
        self.epoch_time
    }

    /// The raw payload, as the device sent it.
    pub fn raw(&self) -> (r: &Vec<u8>)
        ensures
            r@ == self@.raw,
    {
        &self.raw
    }

    /// Wall-clock time of the entry: the batch epoch plus the entry's offset.
    pub fn timestamp(&self) -> (r: u64)
        requires
            self@.timestamp() <= u64::MAX,
        ensures
            r == self@.timestamp(),
    {
        proof {
            use_type_invariant(self);
        }
        let offset = u32_from_le(self.raw[0], self.raw[1], self.raw[2], self.raw[3]);
        self.epoch_time + offset as u64
    }

    /// Temperature in tenths of a degree Celsius.
    pub fn temperature(&self) -> (r: u16)
        ensures
            r == self@.temperature(),
    {
        proof {
            use_type_invariant(self);
        }
        u16_from_le(self.raw[4], self.raw[5])
    }

    /// Brightness in lux.
    pub fn brightness(&self) -> (r: u32)
        ensures
            r == self@.brightness(),
    {
        proof {
            use_type_invariant(self);
        }
        u32_from_le(self.raw[7], self.raw[8], self.raw[9], 0)
    }

    /// Soil moisture in percent.
    pub fn moisture(&self) -> (r: u8)
        ensures
            r == self@.moisture(),
    {
        proof {
            use_type_invariant(self);
        }
        self.raw[11]
    }

    /// Soil conductivity in microsiemens per centimetre.
    pub fn conductivity(&self) -> (r: u16)
        ensures
            r == self@.conductivity(),
    {
        proof {
            use_type_invariant(self);
        }
        u16_from_le(self.raw[12], self.raw[13])
    }
}

} // verus!
