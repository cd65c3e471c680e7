use vstd::prelude::*;

use crate::error::Error;
use crate::protocol::CharacteristicAddress;

verus! {

/// Why a characteristic access failed, as the transport reports it.
#[derive(Debug, Clone, PartialEq, Eq)]
pub enum TransportFailure {
    /// The device has no service with the requested id.
    ServiceMissing { cause: String },
    /// The service has no characteristic with the requested id.
    CharacteristicMissing { cause: String },
    /// The characteristic was found, but the read or write failed.
    Io { cause: String },
}

/// The error a failed read of `a` is reported as.
pub open spec fn read_error(a: CharacteristicAddress, f: TransportFailure) -> Error {
    match f {
        TransportFailure::ServiceMissing { cause } => Error::ServiceNotFound {
            service_id: a.service_id,
            cause,
        },
        TransportFailure::CharacteristicMissing { cause } => Error::CharacteristicNotFound {
            characteristic_id: a.characteristic_id,
            service_id: a.service_id,
            cause,
        },
        TransportFailure::Io { cause } => Error::UnableToRead {
            characteristic_id: a.characteristic_id,
            service_id: a.service_id,
            cause,
        },
    }
}

/// The error a failed write to `a` is reported as.
pub open spec fn write_error(a: CharacteristicAddress, f: TransportFailure) -> Error {
    match f {
        TransportFailure::ServiceMissing { cause } => Error::ServiceNotFound {
            service_id: a.service_id,
            cause,
        },
        TransportFailure::CharacteristicMissing { cause } => Error::CharacteristicNotFound {
            characteristic_id: a.characteristic_id,
            service_id: a.service_id,
            cause,
        },
        TransportFailure::Io { cause } => Error::UnableToWrite {
            characteristic_id: a.characteristic_id,
            service_id: a.service_id,
            cause,
        },
    }
}

/// Reports a failed read of `a`: a missing service or characteristic is a
/// resolution error, anything else a read error.
pub fn read_failure(a: CharacteristicAddress, f: TransportFailure) -> (r: Error)
    ensures
        r == read_error(a, f),
{
    match f {
        TransportFailure::ServiceMissing { cause } => Error::ServiceNotFound {
            service_id: a.service_id,
            cause,
        },
        TransportFailure::CharacteristicMissing { cause } => Error::CharacteristicNotFound {
            characteristic_id: a.characteristic_id,
            service_id: a.service_id,
            cause,
        },
        TransportFailure::Io { cause } => Error::UnableToRead {
            characteristic_id: a.characteristic_id,
            service_id: a.service_id,
            cause,
        },
    }
}

/// Reports a failed write to `a`: a missing service or characteristic is a
/// resolution error, anything else a write error.
pub fn write_failure(a: CharacteristicAddress, f: TransportFailure) -> (r: Error)
    ensures
        r == write_error(a, f),
{
    match f {
        TransportFailure::ServiceMissing { cause } => Error::ServiceNotFound {
            service_id: a.service_id,
            cause,
        },
        TransportFailure::CharacteristicMissing { cause } => Error::CharacteristicNotFound {
            characteristic_id: a.characteristic_id,
            service_id: a.service_id,
            cause,
        },
        TransportFailure::Io { cause } => Error::UnableToWrite {
            characteristic_id: a.characteristic_id,
            service_id: a.service_id,
            cause,
        },
    }
}

/// A characteristic access the caller is asked to perform.
#[derive(Debug, Clone, PartialEq, Eq)]
pub enum Command {
    /// Read the characteristic's value.
    Read(CharacteristicAddress),
    /// Write the bytes to the characteristic, with a write request.
    Write(CharacteristicAddress, Vec<u8>),
}

pub enum CommandView {
    Read(CharacteristicAddress),
    Write(CharacteristicAddress, Seq<u8>),
}

impl View for Command {
    type V = CommandView;

    open spec fn view(&self) -> CommandView {
        match self {
            Command::Read(a) => CommandView::Read(*a),
            Command::Write(a, b) => CommandView::Write(*a, b@),
        }
    }
}

/// The outcome of a command: the bytes read (empty for a write) or the
/// failure, and the wall-clock times, in nanoseconds since the Unix epoch,
/// taken just before the command was issued and just after it completed.
#[derive(Debug)]
pub struct Reply {
    pub result: Result<Vec<u8>, TransportFailure>,
    pub started_ns: u64,
    pub finished_ns: u64,
}

} // verus!
