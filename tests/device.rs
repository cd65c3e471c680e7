use miflora::device::{
    clear_history_from_reply, clear_history_request, identify_device, is_miflora_device,
    system_from_reply, system_request, uuid_short_form, DEVICE_UUID_PREFIX,
};
use miflora::protocol::{
    cmd_history_read_failed, cmd_history_read_init, cmd_history_read_success, cmd_realtime_disable,
    cmd_realtime_enable, CharacteristicAddress,
};
use miflora::transport::{read_failure, write_failure, Command, Reply, TransportFailure};
use miflora::Error;

const FLOWER_CARE: u128 = 0x0000fe95_0000_1000_8000_00805f9b34fb;
const OTHER: u128 = 0x0000180f_0000_1000_8000_00805f9b34fb;

#[test]
fn device_without_service_data_is_rejected() {
    assert_eq!(identify_device(&None), Err(Error::NoServiceData));
    assert_eq!(identify_device(&Some(vec![])), Err(Error::NoServiceData));
    assert_eq!(is_miflora_device(&None), Err(Error::NoServiceData));
}

#[test]
fn device_without_matching_uuid_is_not_supported() {
    assert_eq!(identify_device(&Some(vec![OTHER])), Err(Error::DeviceNotSupported));
    assert_eq!(is_miflora_device(&Some(vec![OTHER, 0xfe95])), Ok(false));
}

#[test]
fn device_with_matching_uuid_is_accepted() {
    assert_eq!(identify_device(&Some(vec![OTHER, FLOWER_CARE])), Ok(()));
    assert_eq!(is_miflora_device(&Some(vec![FLOWER_CARE])), Ok(true));
    assert_eq!(identify_device(&Some(vec![0x0000fe95_ffff_ffff_ffff_ffffffffffff])), Ok(()));
}

#[test]
fn short_form_is_the_leading_32_bits() {
    assert_eq!(uuid_short_form(FLOWER_CARE), DEVICE_UUID_PREFIX);
    assert_eq!(uuid_short_form(OTHER), 0x180f);
    assert_eq!(uuid_short_form(u128::MAX), u32::MAX);
    assert_eq!(uuid_short_form(0xfe95), 0);
}

#[test]
fn system_read_uses_firmware_characteristic() {
    assert_eq!(system_request(), Command::Read(CharacteristicAddress { service_id: 49, characteristic_id: 55 }));
    let reply = Reply { result: Ok(vec![42, 0, b'3', b'.', b'1']), started_ns: 0, finished_ns: 0 };
    let system = system_from_reply(reply).unwrap();
    assert_eq!((system.battery(), system.firmware()), (42, "3.1".to_string()));
    let reply = Reply { result: Err(TransportFailure::Io { cause: "x".to_string() }), started_ns: 0, finished_ns: 0 };
    assert_eq!(
        system_from_reply(reply).unwrap_err(),
        Error::UnableToRead { characteristic_id: 55, service_id: 49, cause: "x".to_string() }
    );
}

#[test]
fn clear_history_writes_acknowledgement() {
    assert_eq!(
        clear_history_request(),
        Command::Write(CharacteristicAddress { service_id: 58, characteristic_id: 61 }, vec![0xa2, 0x00, 0x00])
    );
    let reply = Reply { result: Ok(vec![]), started_ns: 0, finished_ns: 0 };
    assert_eq!(clear_history_from_reply(reply), Ok(()));
    let reply = Reply { result: Err(TransportFailure::Io { cause: "x".to_string() }), started_ns: 0, finished_ns: 0 };
    assert_eq!(
        clear_history_from_reply(reply),
        Err(Error::UnableToWrite { characteristic_id: 61, service_id: 58, cause: "x".to_string() })
    );
}

#[test]
fn command_payloads() {
    assert_eq!(cmd_realtime_enable(), vec![0xa0, 0x1f]);
    assert_eq!(cmd_realtime_disable(), vec![0xc0, 0x1f]);
    assert_eq!(cmd_history_read_init(), vec![0xa0, 0x00, 0x00]);
    assert_eq!(cmd_history_read_success(), vec![0xa2, 0x00, 0x00]);
    assert_eq!(cmd_history_read_failed(), vec![0xa3, 0x00, 0x00]);
}

#[test]
fn characteristic_table() {
    let table = [
        (CharacteristicAddress::mode(), 49, 50),
        (CharacteristicAddress::data(), 49, 52),
        (CharacteristicAddress::firmware(), 49, 55),
        (CharacteristicAddress::history_control(), 58, 61),
        (CharacteristicAddress::history_read(), 58, 59),
        (CharacteristicAddress::history_time(), 58, 64),
    ];
    for (a, s, c) in table {
        assert_eq!((a.service_id, a.characteristic_id), (s, c));
    }
}

#[test]
fn failures_map_to_errors() {
    let a = CharacteristicAddress { service_id: 1, characteristic_id: 2 };
    let cause = || "c".to_string();
    assert_eq!(read_failure(a, TransportFailure::ServiceMissing { cause: cause() }), Error::ServiceNotFound { service_id: 1, cause: cause() });
    assert_eq!(
        write_failure(a, TransportFailure::CharacteristicMissing { cause: cause() }),
        Error::CharacteristicNotFound { characteristic_id: 2, service_id: 1, cause: cause() }
    );
    assert_eq!(read_failure(a, TransportFailure::Io { cause: cause() }), Error::UnableToRead { characteristic_id: 2, service_id: 1, cause: cause() });
    assert_eq!(write_failure(a, TransportFailure::Io { cause: cause() }), Error::UnableToWrite { characteristic_id: 2, service_id: 1, cause: cause() });
}
