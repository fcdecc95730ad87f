use max31855::{bits_to_i16, read_all_raw, read_thermocouple_raw, Error, FullResultRaw, IoLessError};

#[test]
fn thermocouple_frame_of_25_degrees() {
    // 0x0190 holds a count of 100 in bits 2 to 15: 100 * 0.25 = 25.0 degrees Celsius.
    assert_eq!(read_thermocouple_raw([0x01, 0x90]), Ok(100));
}

#[test]
fn thermocouple_frame_with_fault_bit() {
    assert_eq!(read_thermocouple_raw([0x01, 0x91]), Err(IoLessError::Fault));
    assert_eq!(read_thermocouple_raw([0x00, 0x01]), Err(IoLessError::Fault));
}

#[test]
fn thermocouple_frame_negative() {
    // -10.0 degrees: -40 counts, field 0x3FD8, word 0xFF60.
    assert_eq!(read_thermocouple_raw([0xFF, 0x60]), Ok(-40));
    assert_eq!(read_thermocouple_raw([0xFF, 0xFC]), Ok(-1));
    assert_eq!(read_thermocouple_raw([0x80, 0x00]), Ok(-8192));
}

#[test]
fn thermocouple_frame_extremes() {
    assert_eq!(read_thermocouple_raw([0x00, 0x00]), Ok(0));
    assert_eq!(read_thermocouple_raw([0x7F, 0xFC]), Ok(8191));
    // Bit 1 is not part of the field.
    assert_eq!(read_thermocouple_raw([0x00, 0x06]), Ok(1));
}

#[test]
fn full_frame_missing_thermocouple() {
    assert_eq!(read_all_raw([0x00, 0x01, 0x00, 0x01]), Err(IoLessError::MissingThermocoupleFault));
    assert_eq!(read_all_raw([0xAB, 0xCD, 0x00, 0x01]), Err(IoLessError::MissingThermocoupleFault));
    assert_eq!(read_all_raw([0xFF, 0xFF, 0x00, 0x01]), Err(IoLessError::MissingThermocoupleFault));
}

#[test]
fn full_frame_ground_short() {
    assert_eq!(read_all_raw([0x00, 0x01, 0x00, 0x02]), Err(IoLessError::GroundShortFault));
    assert_eq!(read_all_raw([0x12, 0x35, 0x00, 0x02]), Err(IoLessError::GroundShortFault));
}

#[test]
fn full_frame_vcc_short() {
    assert_eq!(read_all_raw([0x00, 0x01, 0x00, 0x04]), Err(IoLessError::VccShortFault));
}

#[test]
fn full_frame_fault_without_kind() {
    assert_eq!(read_all_raw([0x00, 0x01, 0x00, 0x00]), Err(IoLessError::Fault));
    assert_eq!(read_all_raw([0x00, 0x01, 0xFF, 0xF8]), Err(IoLessError::Fault));
}

#[test]
fn full_frame_fault_priority() {
    assert_eq!(read_all_raw([0x00, 0x01, 0x00, 0x07]), Err(IoLessError::MissingThermocoupleFault));
    assert_eq!(read_all_raw([0x00, 0x01, 0x00, 0x03]), Err(IoLessError::MissingThermocoupleFault));
    assert_eq!(read_all_raw([0x00, 0x01, 0x00, 0x05]), Err(IoLessError::MissingThermocoupleFault));
    assert_eq!(read_all_raw([0x00, 0x01, 0x00, 0x06]), Err(IoLessError::GroundShortFault));
}

#[test]
fn full_frame_minus_10_and_20_degrees() {
    // Thermocouple -10.0 degrees (-40 quarter degrees), internal 20.0 degrees
    // (320 sixteenths, word 0x1400).
    let raw = read_all_raw([0xFF, 0x60, 0x14, 0x00]);
    assert_eq!(raw, Ok(FullResultRaw { thermocouple: -40, internal: 320 }));
}

#[test]
fn full_frame_ignores_fault_kind_bits_without_fault() {
    // Bits 0 to 3 of the second word are not part of the internal field.
    assert_eq!(
        read_all_raw([0x01, 0x90, 0x14, 0x07]),
        Ok(FullResultRaw { thermocouple: 100, internal: 320 })
    );
}

#[test]
fn full_frame_negative_internal() {
    // -1 sixteenth of a degree: field 0xFFF, word 0xFFF0.
    assert_eq!(
        read_all_raw([0x00, 0x00, 0xFF, 0xF0]),
        Ok(FullResultRaw { thermocouple: 0, internal: -1 })
    );
    assert_eq!(
        read_all_raw([0x00, 0x00, 0x80, 0x00]),
        Ok(FullResultRaw { thermocouple: 0, internal: -2048 })
    );
    assert_eq!(
        read_all_raw([0x00, 0x00, 0x7F, 0xF0]),
        Ok(FullResultRaw { thermocouple: 0, internal: 2047 })
    );
}

#[test]
fn decode_positive_field_is_unchanged() {
    assert_eq!(bits_to_i16(100, 14, 4, 2), 100);
    assert_eq!(bits_to_i16(0x1FFF, 14, 4, 2), 8191);
    assert_eq!(bits_to_i16(0x7FF, 12, 16, 4), 2047);
    assert_eq!(bits_to_i16(0, 12, 16, 4), 0);
}

#[test]
fn decode_negative_fields() {
    assert_eq!(bits_to_i16(0x3FFF, 14, 4, 2), -1);
    assert_eq!(bits_to_i16(0x2000, 14, 4, 2), -8192);
    assert_eq!(bits_to_i16(0x3FD8, 14, 4, 2), -40);
    assert_eq!(bits_to_i16(0xFFF, 12, 16, 4), -1);
    assert_eq!(bits_to_i16(0x800, 12, 16, 4), -2048);
    assert_eq!(bits_to_i16(0xFFFF, 16, 1, 0), -1);
}

#[test]
fn decode_then_reencode_every_14_bit_field() {
    for bits in 0u16..0x4000 {
        let v = bits_to_i16(bits, 14, 4, 2);
        assert!((-8192..8192).contains(&v));
        assert_eq!(((v as u16) << 2) >> 2, bits);
    }
}

#[test]
fn fault_converts_into_driver_error() {
    assert!(matches!(Error::<()>::from(IoLessError::Fault), Error::Fault));
    assert!(matches!(Error::<()>::from(IoLessError::VccShortFault), Error::VccShortFault));
    assert!(matches!(Error::<()>::from(IoLessError::GroundShortFault), Error::GroundShortFault));
    assert!(matches!(
        Error::<()>::from(IoLessError::MissingThermocoupleFault),
        Error::MissingThermocoupleFault
    ));
}
