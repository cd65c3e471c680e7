use vstd::prelude::*;

use crate::codec::{realtime_of, RealtimeEntry, RealtimeView, REALTIME_LEN};
use crate::error::Error;
use crate::protocol::{
    cmd_realtime_disable, cmd_realtime_enable, data_char, mode_char, realtime_disable_bytes,
    realtime_enable_bytes, CharacteristicAddress, CHARACTERISTIC_MODE_ID, SERVICE_DATA_ID,
};
use crate::transport::{
    read_error, read_failure, write_error, write_failure, Command, CommandView, Reply,
};

verus! {

/// The payload that turns realtime reporting on or off.
pub open spec fn mode_bytes(enabled: bool) -> Seq<u8> {
    if enabled {
        realtime_enable_bytes()
    } else {
        realtime_disable_bytes()
    }
}

/// Whether the two byte sequences are equal.
fn same_bytes(a: &Vec<u8>, b: &Vec<u8>) -> (r: bool)
    ensures
        r == (a@ == b@),
{
    if a.len() != b.len() {
        return false;
    }
    let mut i: usize = 0;
    while i < a.len()
        invariant
            a@.len() == b@.len(),
            i <= a@.len(),
            forall|k: int| 0 <= k < i ==> a@[k] == b@[k],
        decreases a@.len() - i,
    {
        if a[i] != b[i] {
            return false;
        }
        i = i + 1;
    }
    proof {
        assert(a@ =~= b@);
    }
    true
}

pub struct ModeState {
    pub payload: Seq<u8>,
    /// The write was acknowledged and the read-back is awaited.
    pub written: bool,
}

pub enum ModeStepView {
    Issue(ModeState, CommandView),
    Finished(Result<(), Error>),
}

/// One step of a mode switch.
pub open spec fn mode_next(s: ModeState, reply: Reply) -> ModeStepView {
    if !s.written {
        match reply.result {
            Err(f) => ModeStepView::Finished(Err(write_error(mode_char(), f))),
            Ok(_) => ModeStepView::Issue(
                ModeState { written: true, ..s },
                CommandView::Read(mode_char()),
            ),
        }
    } else {
        match reply.result {
            Err(f) => ModeStepView::Finished(Err(read_error(mode_char(), f))),
            Ok(d) => if d@ == s.payload {
                ModeStepView::Finished(Ok(()))
            } else {
                ModeStepView::Finished(
                    Err(
                        Error::InvalidWrittenValue {
                            characteristic_id: CHARACTERISTIC_MODE_ID,
                            service_id: SERVICE_DATA_ID,
                        },
                    ),
                )
            },
        }
    }
}

/// Switches realtime reporting on or off: writes the command to the mode
/// characteristic, reads the characteristic back, and accepts the switch only
/// if the device echoes the command byte for byte. Nothing is retried.
pub struct ModeSwitch {
    payload: Vec<u8>,
    written: bool,
}

impl View for ModeSwitch {
    type V = ModeState;

    closed spec fn view(&self) -> ModeState {
        ModeState { payload: self.payload@, written: self.written }
    }
}

/// What a mode switch asks for next, or how it ended.
pub enum ModeStep {
    Issue(ModeSwitch, Command),
    Finished(Result<(), Error>),
}

impl View for ModeStep {
    type V = ModeStepView;

    open spec fn view(&self) -> ModeStepView {
        match self {
            ModeStep::Issue(m, c) => ModeStepView::Issue(m@, c@),
            ModeStep::Finished(r) => ModeStepView::Finished(*r),
        }
    }
}

impl ModeSwitch {
    /// Starts a switch; the returned command writes the mode payload.
    pub fn start(enabled: bool) -> (r: (ModeSwitch, Command))
        ensures
            r.0@ == (ModeState { payload: mode_bytes(enabled), written: false }),
            r.1@ == CommandView::Write(mode_char(), mode_bytes(enabled)),
    {
        let payload = if enabled {
            cmd_realtime_enable()
        } else {
            cmd_realtime_disable()
        };
        let command = Command::Write(CharacteristicAddress::mode(), payload.clone());
        (ModeSwitch { payload, written: false }, command)
    }

    /// Feeds the reply to the last command issued.
    pub fn advance(self, reply: Reply) -> (r: ModeStep)
        ensures
            r@ == mode_next(self@, reply),
    {
        if !self.written {
            match reply.result {
                Err(f) => ModeStep::Finished(Err(write_failure(CharacteristicAddress::mode(), f))),
                Ok(_) => ModeStep::Issue(
                    ModeSwitch { payload: self.payload, written: true },
                    Command::Read(CharacteristicAddress::mode()),
                ),
            }
        } else {
            match reply.result {
                Err(f) => ModeStep::Finished(Err(read_failure(CharacteristicAddress::mode(), f))),
                Ok(d) => if same_bytes(&d, &self.payload) {
                    ModeStep::Finished(Ok(()))
                } else {
                    ModeStep::Finished(
                        Err(
                            Error::InvalidWrittenValue {
                                characteristic_id: CHARACTERISTIC_MODE_ID,
                                service_id: SERVICE_DATA_ID,
                            },
                        ),
                    )
                },
            }
        }
    }
}

/// A mode switch whose write is acknowledged fails with
/// `InvalidWrittenValue` exactly when the value read back differs from the
/// payload written, and succeeds when the device echoes it.
pub proof fn echo_decides_mode_switch(enabled: bool, ack: Reply, echo: Reply)
    requires
        ack.result is Ok,
        echo.result is Ok,
    ensures
        ({
            let s = ModeState { payload: mode_bytes(enabled), written: false };
            let s1 = ModeState { written: true, ..s };
            &&& mode_next(s, ack) == ModeStepView::Issue(s1, CommandView::Read(mode_char()))
            &&& mode_next(s1, echo) == if echo.result->Ok_0@ == mode_bytes(enabled) {
                ModeStepView::Finished(Ok(()))
            } else {
                ModeStepView::Finished(
                    Err(
                        Error::InvalidWrittenValue {
                            characteristic_id: CHARACTERISTIC_MODE_ID,
                            service_id: SERVICE_DATA_ID,
                        },
                    ),
                )
            }
        }),
{
}

pub enum RealtimePhase {
    Switching(ModeState),
    Reading,
}

pub enum RealtimeStepView {
    Issue(RealtimePhase, CommandView),
    Finished(Result<RealtimeView, Error>),
}

/// One step of a realtime read: first the mode switch to realtime, then the
/// read of the data characteristic.
pub open spec fn realtime_next(p: RealtimePhase, reply: Reply) -> RealtimeStepView {
    match p {
        RealtimePhase::Switching(s) => match mode_next(s, reply) {
            ModeStepView::Issue(s1, c) => RealtimeStepView::Issue(RealtimePhase::Switching(s1), c),
            ModeStepView::Finished(Err(e)) => RealtimeStepView::Finished(Err(e)),
            ModeStepView::Finished(Ok(())) => RealtimeStepView::Issue(
                RealtimePhase::Reading,
                CommandView::Read(data_char()),
            ),
        },
        RealtimePhase::Reading => match reply.result {
            Err(f) => RealtimeStepView::Finished(Err(read_error(data_char(), f))),
            Ok(d) => if d@.len() < REALTIME_LEN {
                RealtimeStepView::Finished(
                    Err(
                        Error::PayloadTooShort {
                            expected: REALTIME_LEN,
                            actual: d@.len() as usize,
                        },
                    ),
                )
            } else {
                RealtimeStepView::Finished(Ok(realtime_of(d@)))
            },
        },
    }
}

/// Reads the live sensor values: switches the device to realtime mode, then
/// reads and decodes the data characteristic.
pub struct RealtimeReader {
    switch: Option<ModeSwitch>,
}

impl View for RealtimeReader {
    type V = RealtimePhase;

    closed spec fn view(&self) -> RealtimePhase {
        match self.switch {
            Some(m) => RealtimePhase::Switching(m@),
            None => RealtimePhase::Reading,
        }
    }
}

/// What a realtime read asks for next, or how it ended.
pub enum RealtimeStep {
    Issue(RealtimeReader, Command),
    Finished(Result<RealtimeEntry, Error>),
}

impl View for RealtimeStep {
    type V = RealtimeStepView;

    open spec fn view(&self) -> RealtimeStepView {
        match self {
            RealtimeStep::Issue(m, c) => RealtimeStepView::Issue(m@, c@),
            RealtimeStep::Finished(Ok(e)) => RealtimeStepView::Finished(Ok(e@)),
            RealtimeStep::Finished(Err(e)) => RealtimeStepView::Finished(Err(*e)),
        }
    }
}

impl RealtimeReader {
    /// Starts a realtime read; the returned command writes the
    /// realtime-enable payload.
    pub fn start() -> (r: (RealtimeReader, Command))
        ensures
            r.0@ == RealtimePhase::Switching(
                ModeState { payload: mode_bytes(true), written: false },
            ),
            r.1@ == CommandView::Write(mode_char(), mode_bytes(true)),
    {
        let (m, c) = ModeSwitch::start(true);
        (RealtimeReader { switch: Some(m) }, c)
    }

    /// Feeds the reply to the last command issued.
    pub fn advance(self, reply: Reply) -> (r: RealtimeStep)
        ensures
            r@ == realtime_next(self@, reply),
    {
        match self.switch {
            Some(m) => match m.advance(reply) {
                ModeStep::Issue(m1, c) => {
                    RealtimeStep::Issue(RealtimeReader { switch: Some(m1) }, c)
                },
                ModeStep::Finished(Err(e)) => RealtimeStep::Finished(Err(e)),
                ModeStep::Finished(Ok(())) => RealtimeStep::Issue(
                    RealtimeReader { switch: None },
                    Command::Read(CharacteristicAddress::data()),
                ),
            },
            None => match reply.result {
                Err(f) => {
                    RealtimeStep::Finished(Err(read_failure(CharacteristicAddress::data(), f)))
                },
                Ok(d) => RealtimeStep::Finished(RealtimeEntry::decode(&d)),
            },
        }
    }
}

} // verus!
