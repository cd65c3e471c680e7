use vstd::prelude::*;

verus! {

/// Every failure the protocol layer reports. Transport causes are carried as
/// the transport's own message.
#[derive(Debug, Clone, PartialEq, Eq)]
pub enum Error {
    /// The adapter knows no device with this address.
    DeviceNotFound { address: [u8; 6], cause: String },
    /// The device offers no service with this id.
    ServiceNotFound { service_id: u16, cause: String },
    /// The service offers no characteristic with this id.
    CharacteristicNotFound { characteristic_id: u16, service_id: u16, cause: String },
    /// Reading the characteristic failed.
    UnableToRead { characteristic_id: u16, service_id: u16, cause: String },
    /// Writing the characteristic failed.
    UnableToWrite { characteristic_id: u16, service_id: u16, cause: String },
    /// The value read back after a write differs from what was written.
    InvalidWrittenValue { characteristic_id: u16, service_id: u16 },
    /// A transport call outside any specific category failed.
    CommandFailed { cause: String },
    /// The connect or disconnect budget ran out; `cause` is the last failure.
    TooManyRetries { attempts: u16, cause: String },
    /// The device advertises no service data at all.
    NoServiceData,
    /// The device's service data does not identify a supported sensor.
    DeviceNotSupported,
    /// A payload is shorter than its layout requires.
    PayloadTooShort { expected: usize, actual: usize },
}

} // verus!
