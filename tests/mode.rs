use miflora::mode::{ModeStep, ModeSwitch, RealtimeReader, RealtimeStep};
use miflora::protocol::CharacteristicAddress;
use miflora::transport::{Command, Reply, TransportFailure};
use miflora::{Error, RealtimeEntry};

fn ok(bytes: Vec<u8>) -> Reply {
    Reply { result: Ok(bytes), started_ns: 0, finished_ns: 0 }
}

fn failed(failure: TransportFailure) -> Reply {
    Reply { result: Err(failure), started_ns: 0, finished_ns: 0 }
}

fn switch(enabled: bool, echo: Vec<u8>) -> Result<(), Error> {
    let (m, c) = ModeSwitch::start(enabled);
    let expected = if enabled { vec![0xa0, 0x1f] } else { vec![0xc0, 0x1f] };
    assert_eq!(c, Command::Write(CharacteristicAddress::mode(), expected));
    let m = match m.advance(ok(vec![])) {
        ModeStep::Issue(m, c) => {
            assert_eq!(c, Command::Read(CharacteristicAddress::mode()));
            m
        }
        ModeStep::Finished(_) => panic!("expected the read-back"),
    };
    match m.advance(ok(echo)) {
        ModeStep::Finished(r) => r,
        ModeStep::Issue(..) => panic!("expected the end"),
    }
}

#[test]
fn mode_switch_rejects_wrong_echo() {
    let err = switch(true, vec![0xc0, 0x1f]).unwrap_err();
    assert_eq!(err, Error::InvalidWrittenValue { characteristic_id: 50, service_id: 49 });
}

#[test]
fn mode_switch_accepts_exact_echo() {
    assert_eq!(switch(true, vec![0xa0, 0x1f]), Ok(()));
    assert_eq!(switch(false, vec![0xc0, 0x1f]), Ok(()));
    assert!(switch(false, vec![0xc0, 0x1f, 0x00]).is_err());
    assert!(switch(false, vec![]).is_err());
}

#[test]
fn mode_switch_write_failure() {
    let (m, _) = ModeSwitch::start(true);
    match m.advance(failed(TransportFailure::Io { cause: "w".to_string() })) {
        ModeStep::Finished(r) => assert_eq!(
            r,
            Err(Error::UnableToWrite { characteristic_id: 50, service_id: 49, cause: "w".to_string() })
        ),
        ModeStep::Issue(..) => panic!("expected the end"),
    }
}

fn read_realtime(replies: Vec<Reply>) -> (Result<RealtimeEntry, Error>, Vec<Command>) {
    let (mut m, mut c) = RealtimeReader::start();
    let mut calls = vec![];
    for reply in replies {
        calls.push(c.clone());
        match m.advance(reply) {
            RealtimeStep::Issue(next, command) => {
                m = next;
                c = command;
            }
            RealtimeStep::Finished(r) => return (r, calls),
        }
    }
    panic!("ran out of replies");
}

#[test]
fn realtime_read_switches_mode_then_reads() {
    let data = vec![0x64u8, 0x00, 0, 0x10, 0, 0, 0, 0x37, 0x90, 0x01, 0, 0, 0, 0, 0, 0];
    let (r, calls) = read_realtime(vec![ok(vec![]), ok(vec![0xa0, 0x1f]), ok(data)]);
    let entry = r.unwrap();
    assert_eq!((entry.temperature(), entry.brightness(), entry.moisture(), entry.conductivity()), (100, 16, 55, 400));
    assert_eq!(
        calls,
        vec![
            Command::Write(CharacteristicAddress::mode(), vec![0xa0, 0x1f]),
            Command::Read(CharacteristicAddress::mode()),
            Command::Read(CharacteristicAddress::data()),
        ]
    );
}

#[test]
fn realtime_read_stops_on_bad_echo() {
    let (r, calls) = read_realtime(vec![ok(vec![]), ok(vec![0xc0, 0x1f])]);
    assert_eq!(r.unwrap_err(), Error::InvalidWrittenValue { characteristic_id: 50, service_id: 49 });
    assert_eq!(calls.len(), 2);
}

#[test]
fn realtime_read_errors() {
    let (r, _) = read_realtime(vec![
        ok(vec![]),
        ok(vec![0xa0, 0x1f]),
        failed(TransportFailure::CharacteristicMissing { cause: "c".to_string() }),
    ]);
    assert_eq!(
        r.unwrap_err(),
        Error::CharacteristicNotFound { characteristic_id: 52, service_id: 49, cause: "c".to_string() }
    );
    let (r, _) = read_realtime(vec![ok(vec![]), ok(vec![0xa0, 0x1f]), ok(vec![1, 2, 3])]);
    assert_eq!(r.unwrap_err(), Error::PayloadTooShort { expected: 10, actual: 3 });
    let (r, _) = read_realtime(vec![ok(vec![]), failed(TransportFailure::Io { cause: "r".to_string() })]);
    assert_eq!(r.unwrap_err(), Error::UnableToRead { characteristic_id: 50, service_id: 49, cause: "r".to_string() });
}
