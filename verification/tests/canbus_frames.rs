use canbus_gauge::canbus::{
    decode_oil_temp, from_be_bytes, handle_frame, oil_pressure_can_id, oil_temp_can_id,
    next_oil_temp, outcome_is_decodable, raw_to_fahrenheit, INITIAL_OIL_TEMP_F, reader_step, standard_can_id, CanId, ReaderAction, ReceiveOutcome,
};
use canbus_gauge::constants::canbus_config::{OIL_PRESSURE_CAN_ID, OIL_TEMP_CAN_ID};

fn temp_frame(raw: u16) -> Vec<u8> {
    let [hi, lo] = raw.to_be_bytes();
    vec![0, 0, 0, 0, 0, 0, hi, lo]
}

#[test]
fn boiling_point_reads_212_fahrenheit() {
    assert_eq!(raw_to_fahrenheit(3731), 212);
}

#[test]
fn freezing_point_reads_32_fahrenheit() {
    assert_eq!(raw_to_fahrenheit(2730), 32);
    assert_eq!(raw_to_fahrenheit(2739), 32);
}

#[test]
fn conversion_rounds_each_step_down() {
    // 3000 tenths of a kelvin: 300 K, 27 C, 27 * 9 / 5 = 48, + 32 = 80.
    assert_eq!(raw_to_fahrenheit(3000), 80);
    // 3009: still 300 K.
    assert_eq!(raw_to_fahrenheit(3009), 80);
    // 3010: 301 K, 28 C, 252 / 5 = 50, + 32 = 82.
    assert_eq!(raw_to_fahrenheit(3010), 82);
}

#[test]
fn largest_raw_reading_converts_without_overflow() {
    assert_eq!(raw_to_fahrenheit(u16::MAX), 11336);
}

#[test]
fn bytes_are_read_big_endian() {
    assert_eq!(from_be_bytes(0x0E, 0x93), 0x0E93);
    assert_eq!(from_be_bytes(0x00, 0xFF), 0x00FF);
    assert_eq!(from_be_bytes(0xFF, 0x00), 0xFF00);
}

#[test]
fn decode_reads_bytes_six_and_seven() {
    let data = temp_frame(3731);
    assert_eq!(decode_oil_temp(&data), Some(212));
    let mut longer = data.clone();
    longer.push(0xAA);
    assert_eq!(decode_oil_temp(&longer), Some(212));
}

#[test]
fn decode_rejects_short_frames() {
    assert_eq!(decode_oil_temp(&[]), None);
    assert_eq!(decode_oil_temp(&[0, 0, 0, 0, 0, 0, 0x0E]), None);
}

#[test]
fn oil_temp_frame_is_stored() {
    let action = handle_frame(CanId::Standard(OIL_TEMP_CAN_ID), &temp_frame(3731));
    assert_eq!(action, ReaderAction::StoreOilTemp(212));
}

#[test]
fn short_oil_temp_frame_is_reported() {
    let action = handle_frame(CanId::Standard(OIL_TEMP_CAN_ID), &[1, 2, 3]);
    assert_eq!(action, ReaderAction::WarnInvalidOilTempFrame);
}

#[test]
fn oil_pressure_frame_is_ignored() {
    let action = handle_frame(CanId::Standard(OIL_PRESSURE_CAN_ID), &temp_frame(3731));
    assert_eq!(action, ReaderAction::Ignore);
}

#[test]
fn extended_id_with_same_number_is_ignored() {
    let action = handle_frame(CanId::Extended(OIL_TEMP_CAN_ID as u32), &temp_frame(3731));
    assert_eq!(action, ReaderAction::Ignore);
}

#[test]
fn unrelated_frame_is_ignored_even_with_low_reading() {
    let action = handle_frame(CanId::Standard(0x123), &temp_frame(0));
    assert_eq!(action, ReaderAction::Ignore);
}

#[test]
fn reader_step_covers_every_receive_outcome() {
    let data = temp_frame(3000);
    let frame = ReceiveOutcome::Frame { id: oil_temp_can_id(), data: &data };
    assert_eq!(reader_step(&frame), ReaderAction::StoreOilTemp(80));
    assert_eq!(reader_step(&ReceiveOutcome::NoMessage), ReaderAction::Yield);
    assert_eq!(reader_step(&ReceiveOutcome::Failed), ReaderAction::WarnReceiveErrorAndYield);
}

#[test]
fn standard_ids_are_eleven_bits() {
    assert_eq!(standard_can_id(0), Some(CanId::Standard(0)));
    assert_eq!(standard_can_id(0x7FF), Some(CanId::Standard(0x7FF)));
    assert_eq!(standard_can_id(0x3E0), Some(CanId::Standard(0x3E0)));
    assert_eq!(standard_can_id(0x800), None);
    assert_eq!(standard_can_id(u16::MAX), None);
}

#[test]
fn gauge_ids_are_the_configured_ones() {
    assert_eq!(oil_temp_can_id(), CanId::Standard(0x3E0));
    assert_eq!(oil_pressure_can_id(), CanId::Standard(0x361));
}

#[test]
fn readings_below_absolute_zero_are_not_decodable() {
    let cold = temp_frame(2729);
    let warm = temp_frame(2730);
    let temp_id = oil_temp_can_id();
    assert!(!outcome_is_decodable(&ReceiveOutcome::Frame { id: temp_id, data: &cold }));
    assert!(outcome_is_decodable(&ReceiveOutcome::Frame { id: temp_id, data: &warm }));
    assert!(outcome_is_decodable(&ReceiveOutcome::Frame { id: temp_id, data: &cold[..7] }));
    assert!(outcome_is_decodable(&ReceiveOutcome::Frame { id: oil_pressure_can_id(), data: &cold }));
    assert!(outcome_is_decodable(&ReceiveOutcome::NoMessage));
    assert!(outcome_is_decodable(&ReceiveOutcome::Failed));
}

#[test]
fn stored_temperature_follows_the_latest_reading() {
    let hot = temp_frame(3731);
    let warm = temp_frame(3000);
    let short = [0u8, 1, 2];
    let temp_id = oil_temp_can_id();
    let outcomes = [
        ReceiveOutcome::NoMessage,
        ReceiveOutcome::Frame { id: temp_id, data: &hot },
        ReceiveOutcome::Frame { id: oil_pressure_can_id(), data: &warm },
        ReceiveOutcome::Failed,
        ReceiveOutcome::Frame { id: temp_id, data: &short },
    ];
    let mut stored = INITIAL_OIL_TEMP_F;
    assert_eq!(stored, 0);
    let mut history = Vec::new();
    for outcome in &outcomes {
        stored = next_oil_temp(stored, reader_step(outcome));
        history.push(stored);
    }
    assert_eq!(history, vec![0, 212, 212, 212, 212]);
    stored = next_oil_temp(stored, reader_step(&ReceiveOutcome::Frame { id: temp_id, data: &warm }));
    assert_eq!(stored, 80);
}
