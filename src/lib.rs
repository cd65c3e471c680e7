//! Protocol client for the Flower Care family of BLE soil sensors.
//!
//! The library holds the device protocol without doing any I/O itself:
//! payload codecs, characteristic addressing, the connect/disconnect retry
//! policy and the multi-step exchanges (mode switch, history paging) as
//! state machines that name the next transport command and consume its reply.
pub mod codec;
pub mod device;
pub mod error;
pub mod history;
pub mod mode;
pub mod protocol;
pub mod session;
pub mod transport;

pub use codec::{HistoricalEntry, HistoricalView, RealtimeEntry, RealtimeView, System, SystemView};
pub use error::Error;
