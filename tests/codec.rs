use miflora::codec::{HISTORICAL_LEN, REALTIME_LEN, SYSTEM_LEN};
use miflora::{Error, HistoricalEntry, RealtimeEntry, System};

#[test]
fn system_decodes_battery_and_firmware() {
    let data = vec![42u8, 0, b'v', b'1', b'.', b'0'];
    let system = System::decode(&data).unwrap();
    assert_eq!(system.battery(), 42);
    assert_eq!(system.firmware(), "v1.0");
}

#[test]
fn system_firmware_replaces_invalid_utf8() {
    let data = vec![7u8, 0, b'a', 0xff, b'b'];
    let system = System::decode(&data).unwrap();
    assert_eq!(system.battery(), 7);
    assert_eq!(system.firmware(), "a\u{fffd}b");
}

#[test]
fn system_firmware_starts_at_byte_two() {
    let system = System::decode(&vec![100u8, 9, 0]).unwrap();
    assert_eq!(system.battery(), 100);
    assert_eq!(system.firmware(), "\u{0}");
    let system = System::decode(&vec![100u8, 9, b'x']).unwrap();
    assert_eq!(system.firmware(), "x");
}

#[test]
fn system_rejects_short_payload() {
    let err = System::decode(&vec![42u8, 0]).unwrap_err();
    assert_eq!(err, Error::PayloadTooShort { expected: SYSTEM_LEN, actual: 2 });
    assert_eq!(SYSTEM_LEN, 3);
}

#[test]
fn realtime_decodes_little_endian_fields() {
    let data = vec![0x64u8, 0x00, 0xaa, 0x10, 0x00, 0x00, 0x00, 0x37, 0x90, 0x01, 0xde, 0xad, 0, 0, 0, 0];
    let entry = RealtimeEntry::decode(&data).unwrap();
    assert_eq!(entry.temperature(), 100);
    assert_eq!(entry.brightness(), 16);
    assert_eq!(entry.moisture(), 55);
    assert_eq!(entry.conductivity(), 400);
}

#[test]
fn realtime_decodes_high_bytes() {
    let data = vec![0x34u8, 0x12, 0, 0x78, 0x56, 0x34, 0x12, 0xff, 0xff, 0xff];
    let entry = RealtimeEntry::decode(&data).unwrap();
    assert_eq!(entry.temperature(), 0x1234);
    assert_eq!(entry.brightness(), 0x1234_5678);
    assert_eq!(entry.moisture(), 255);
    assert_eq!(entry.conductivity(), 0xffff);
}

#[test]
fn realtime_rejects_short_payload() {
    let err = RealtimeEntry::decode(&vec![0u8; 9]).unwrap_err();
    assert_eq!(err, Error::PayloadTooShort { expected: REALTIME_LEN, actual: 9 });
    assert_eq!(REALTIME_LEN, 10);
}

fn historical_payload(offset: u32) -> Vec<u8> {
    let o = offset.to_le_bytes();
    vec![o[0], o[1], o[2], o[3], 0xd2, 0x00, 0x99, 0x10, 0x27, 0x00, 0x77, 0x2a, 0x5e, 0x01, 0, 0]
}

#[test]
fn historical_decodes_fields() {
    let entry = HistoricalEntry::decode(historical_payload(60), 1_000).unwrap();
    assert_eq!(entry.timestamp(), 1_060);
    assert_eq!(entry.temperature(), 210);
    assert_eq!(entry.brightness(), 10_000);
    assert_eq!(entry.moisture(), 42);
    assert_eq!(entry.conductivity(), 350);
    assert_eq!(entry.epoch_time(), 1_000);
    assert_eq!(entry.raw(), &historical_payload(60));
}

#[test]
fn historical_brightness_ignores_byte_ten() {
    let mut data = historical_payload(0);
    data[7] = 0x01;
    data[8] = 0x02;
    data[9] = 0x03;
    data[10] = 0xff;
    let entry = HistoricalEntry::decode(data, 0).unwrap();
    assert_eq!(entry.brightness(), 0x0003_0201);
}

#[test]
fn historical_timestamp_adds_offset_to_epoch() {
    let entry = HistoricalEntry::decode(historical_payload(0), 1_700_000_000).unwrap();
    assert_eq!(entry.timestamp(), 1_700_000_000);
    let entry = HistoricalEntry::decode(historical_payload(u32::MAX), 1_700_000_000).unwrap();
    assert_eq!(entry.timestamp(), 1_700_000_000 + u32::MAX as u64);
    let entry = HistoricalEntry::decode(historical_payload(u32::MAX), 0).unwrap();
    assert_eq!(entry.timestamp(), u32::MAX as u64);
    let entry = HistoricalEntry::decode(historical_payload(0x0102_0304), u64::MAX - u32::MAX as u64).unwrap();
    assert_eq!(entry.timestamp(), u64::MAX - u32::MAX as u64 + 0x0102_0304);
}

#[test]
fn historical_accepts_exactly_fourteen_bytes() {
    let data = historical_payload(5)[..14].to_vec();
    let entry = HistoricalEntry::decode(data, 10).unwrap();
    assert_eq!(entry.timestamp(), 15);
    assert_eq!(entry.conductivity(), 350);
    let copy = entry.clone();
    assert_eq!(copy.raw(), entry.raw());
}

#[test]
fn historical_rejects_short_payload() {
    let err = HistoricalEntry::decode(vec![0u8; 13], 0).unwrap_err();
    assert_eq!(err, Error::PayloadTooShort { expected: HISTORICAL_LEN, actual: 13 });
    assert_eq!(HISTORICAL_LEN, 14);
}
