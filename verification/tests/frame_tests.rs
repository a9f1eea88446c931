use serial_sensors::app::Mode;
use serial_sensors::cli::{AnalyzeDump, Dump};
use serial_sensors::dumping::{raw_file_format, raw_format, RawFormat};
use serial_sensors::highlight::{highlight_axis_3, Max};
use serial_sensors::frame::{
    Frame, Identification, IdentifierCode, LinearRanges, SensorData, SensorId, ValueType, Vector3,
    VectorBits3, VectorBits4,
};
use serial_sensors::serial::{
    handle_data_recv, link_settings, FlowControl, Parity, ReadAction, ReadEvent,
};
use serial_sensors::text::{
    identification_string, push_decimal, push_signed_decimal, push_upper_hex, push_upper_hex2,
};

fn all_value_types() -> Vec<(ValueType, u8)> {
    vec![
        (ValueType::UInt8, 0x01),
        (ValueType::SInt8, 0x02),
        (ValueType::UInt16, 0x03),
        (ValueType::SInt16, 0x04),
        (ValueType::UInt32, 0x05),
        (ValueType::SInt32, 0x06),
        (ValueType::UInt64, 0x07),
        (ValueType::SInt64, 0x08),
        (ValueType::UInt128, 0x09),
        (ValueType::SInt128, 0x0A),
        (ValueType::Float32, 0x0B),
        (ValueType::Float64, 0x0C),
        (ValueType::Q8_8, 0x0D),
        (ValueType::Q16_16, 0x0E),
        (ValueType::Q32_32, 0x0F),
        (ValueType::LinearRange, 0xFE),
        (ValueType::Identifier, 0xFF),
    ]
}

#[test]
fn value_types_have_their_wire_bytes() {
    for (value_type, code) in all_value_types() {
        assert_eq!(value_type.code(), code);
        assert_eq!(ValueType::from_code(code), Some(value_type));
    }
    assert_eq!(ValueType::from_code(0x00), None);
    assert_eq!(ValueType::from_code(0x10), None);
    assert_eq!(ValueType::from_code(0xFD), None);
}

#[test]
fn sensor_ids_pack_one_to_one() {
    let id = SensorId::new_with(0x1234, 0x42, ValueType::SInt16);
    assert_eq!(id.tag(), 0x1234);
    assert_eq!(id.id(), 0x42);
    assert_eq!(id.value_type(), ValueType::SInt16);
    assert_eq!(id.key(), 0x1234_4204);
    assert_eq!(SensorId::from_key(0x1234_4204), Some(id));
    assert_eq!(SensorId::from_key(0x1234_4200), None);
    assert_eq!(SensorId::new_with(u16::MAX, u8::MAX, ValueType::Identifier).key(), u32::MAX);
    for (value_type, _) in all_value_types() {
        let id = SensorId::new_with(7, 9, value_type);
        assert_eq!(SensorId::from_key(id.key()), Some(id));
    }
}

#[test]
fn component_counts_by_sensor() {
    let counts = [
        (0x02, ValueType::UInt32, Some(1)),
        (0x42, ValueType::SInt16, Some(3)),
        (0x43, ValueType::SInt16, Some(3)),
        (0x44, ValueType::SInt16, Some(1)),
        (0x45, ValueType::SInt16, Some(3)),
        (0x46, ValueType::SInt16, Some(1)),
        (0xF0, ValueType::Float32, Some(3)),
        (0xF1, ValueType::Float32, Some(4)),
        (0xFE, ValueType::LinearRange, None),
        (0xFF, ValueType::Identifier, None),
        (0x42, ValueType::UInt32, None),
        (0x02, ValueType::SInt16, None),
        (0x00, ValueType::Float32, None),
    ];
    for (sensor_type, value_type, count) in counts {
        assert_eq!(SensorId::new_with(1, sensor_type, value_type).num_components(), count);
    }
}

#[test]
fn frames_know_their_sensor() {
    let v = Vector3 { x: 1, y: 2, z: 3 };
    let acc = Frame::new(1, 2, 3, 4, 5, 6, SensorData::AccelerometerI16(v));
    assert!(!acc.is_meta());
    assert_eq!(acc.sensor_id(), SensorId::new_with(6, 0x42, ValueType::SInt16));
    assert_eq!(acc.target(), acc.sensor_id());
    assert_eq!(acc.value.meta_target(), None);
    let ranges = Frame::new(
        1,
        2,
        3,
        4,
        5,
        9,
        SensorData::LinearRanges(LinearRanges {
            target: acc.sensor_id(),
            resolution_bits: 1,
            scale_op: 2,
            scale: 3,
            scale_decimals: 4,
            offset: 5,
            offset_decimals: 6,
        }),
    );
    assert!(ranges.is_meta());
    assert_eq!(ranges.sensor_id(), SensorId::new_with(9, 0xFE, ValueType::LinearRange));
    assert_eq!(ranges.target(), acc.sensor_id());
    let ident = Frame::new(
        1,
        2,
        3,
        4,
        5,
        9,
        SensorData::Identification(Identification {
            target: acc.sensor_id(),
            code: IdentifierCode::Maker,
            value: [0; 64],
        }),
    );
    assert!(ident.is_meta());
    assert_eq!(ident.sensor_id(), SensorId::new_with(9, 0xFF, ValueType::Identifier));
    assert_eq!(ident.target(), acc.sensor_id());
}

#[test]
fn payloads_know_their_sensor_type_and_encoding() {
    let v = Vector3 { x: 1, y: 2, z: 3 };
    let cases = [
        (SensorData::SystemClockFrequency(1), 0x02, ValueType::UInt32),
        (SensorData::AccelerometerI16(v), 0x42, ValueType::SInt16),
        (SensorData::MagnetometerI16(v), 0x43, ValueType::SInt16),
        (SensorData::TemperatureI16(1), 0x44, ValueType::SInt16),
        (SensorData::GyroscopeI16(v), 0x45, ValueType::SInt16),
        (SensorData::HeadingI16(1), 0x46, ValueType::SInt16),
        (SensorData::EulerAnglesF32(VectorBits3 { x: 0, y: 0, z: 0 }), 0xF0, ValueType::Float32),
        (
            SensorData::OrientationQuaternionF32(VectorBits4 { a: 0, b: 0, c: 0, d: 0 }),
            0xF1,
            ValueType::Float32,
        ),
    ];
    for (value, sensor_type, value_type) in cases {
        assert_eq!(value.sensor_type_id(), sensor_type);
        assert_eq!(value.value_type(), value_type);
        assert!(!value.is_meta());
    }
}

#[test]
fn integers_as_text() {
    let mut out = String::from(">");
    for n in [0u64, 9, 10, 65535, u64::MAX] {
        out.push(' ');
        push_decimal(&mut out, n);
    }
    assert_eq!(out, "> 0 9 10 65535 18446744073709551615");
    let mut out = String::new();
    for i in [-300i64, 0, 7, -1, i64::MIN, i64::MAX] {
        push_signed_decimal(&mut out, i);
        out.push(' ');
    }
    assert_eq!(out, "-300 0 7 -1 -9223372036854775808 9223372036854775807 ");
}

#[test]
fn hexadecimal_text_is_upper_case_and_two_digits_wide() {
    let mut out = String::new();
    for n in [0u64, 1, 10, 15, 16, 171, 255, 256, 0xBEEF] {
        push_upper_hex2(&mut out, n);
        out.push(' ');
    }
    push_upper_hex(&mut out, 0);
    out.push(' ');
    push_upper_hex(&mut out, u64::MAX);
    assert_eq!(out, "00 01 0A 0F 10 AB FF 100 BEEF 0 FFFFFFFFFFFFFFFF");
}

#[test]
fn identification_values_lose_their_padding() {
    assert_eq!(identification_string(b"LSM303DLHC\0\0"), "LSM303DLHC");
    assert_eq!(identification_string(b"LSM303DLHC\0\0   "), "LSM303DLHC");
    assert_eq!(identification_string(b"LSM303DLHC \t\r\n\x0b\x0c"), "LSM303DLHC");
    assert_eq!(identification_string(b"  two words  "), "  two words");
    assert_eq!(identification_string(b"a\0b\0"), "a\0b");
    assert_eq!(identification_string(b"   \0 "), "");
    assert_eq!(identification_string(b""), "");
    assert_eq!(identification_string("Bosch\u{a0}\u{2003}\u{3000}".as_bytes()), "Bosch");
    assert_eq!(identification_string("Å\u{85}".as_bytes()), "Å");
    assert_eq!(identification_string(&[b'a', 0xFF, b'b']), "");
    assert_eq!(identification_string(&[0xC3]), "");
}

#[test]
fn line_has_its_fixed_parameters() {
    let settings = link_settings();
    assert_eq!(settings.data_bits, 8);
    assert_eq!(settings.flow_control, FlowControl::Off);
    assert_eq!(settings.parity, Parity::Off);
    assert_eq!(settings.stop_bits, 1);
    assert_eq!(settings.timeout_millis, 10);
}

#[test]
fn reads_are_forwarded_ignored_or_fatal() {
    let buffer = [1u8, 2, 3, 4];
    assert_eq!(handle_data_recv(&buffer, ReadEvent::Read(3)), ReadAction::Forward(vec![1, 2, 3]));
    assert_eq!(handle_data_recv(&buffer, ReadEvent::Read(4)), ReadAction::Forward(vec![1, 2, 3, 4]));
    assert_eq!(handle_data_recv(&buffer, ReadEvent::Read(0)), ReadAction::Ignore);
    assert_eq!(handle_data_recv(&buffer, ReadEvent::TimedOut), ReadAction::Ignore);
    assert_eq!(handle_data_recv(&buffer, ReadEvent::Failed), ReadAction::Fail);
}

#[test]
fn live_view_starts_at_home() {
    assert_eq!(Mode::default(), Mode::Home);
}

#[test]
fn analysis_writes_beside_its_input_unless_told_otherwise() {
    let beside = AnalyzeDump { dir: String::from("in"), output: None };
    assert_eq!(beside.output_dir(), "in");
    let elsewhere = AnalyzeDump { dir: String::from("in"), output: Some(String::from("out")) };
    assert_eq!(elsewhere.output_dir(), "out");
    let dump = Dump {
        port: String::from("/dev/ttyACM0"),
        baud: 1_000_000,
        raw: None,
        dir: String::from("data"),
    };
    assert_eq!(dump.baud, 1_000_000);
}

#[test]
fn raw_file_is_compressed_by_its_extension() {
    assert_eq!(raw_format(Some("gz")), RawFormat::Gzip);
    assert_eq!(raw_format(Some("GZ")), RawFormat::Plain);
    assert_eq!(raw_format(Some("gzip")), RawFormat::Plain);
    assert_eq!(raw_format(Some("g")), RawFormat::Plain);
    assert_eq!(raw_format(Some("")), RawFormat::Plain);
    assert_eq!(raw_format(None), RawFormat::Plain);
    assert_eq!(raw_file_format("dump.bin.gz"), RawFormat::Gzip);
    assert_eq!(raw_file_format("/tmp/raw.gz"), RawFormat::Gzip);
    assert_eq!(raw_file_format("dump.bin"), RawFormat::Plain);
    assert_eq!(raw_file_format("dump"), RawFormat::Plain);
    assert_eq!(raw_file_format(".gz"), RawFormat::Plain);
    assert_eq!(raw_file_format("dir.gz/raw"), RawFormat::Plain);
    let mut dump = Dump {
        port: String::from("/dev/ttyACM0"),
        baud: 1_000_000,
        raw: Some(String::from("raw.gz")),
        dir: String::from("data"),
    };
    assert_eq!(dump.raw_format(), Some(RawFormat::Gzip));
    dump.raw = Some(String::from("raw.bin"));
    assert_eq!(dump.raw_format(), Some(RawFormat::Plain));
    dump.raw = None;
    assert_eq!(dump.raw_format(), None);
}

#[test]
fn axis_of_the_largest_magnitude_stands_out() {
    assert_eq!(highlight_axis_3(5, -2, 3), (Max::Positive, Max::Neither, Max::Neither));
    assert_eq!(highlight_axis_3(5, -20, 3), (Max::Neither, Max::Negative, Max::Neither));
    assert_eq!(highlight_axis_3(5, -20, 30), (Max::Neither, Max::Neither, Max::Positive));
    assert_eq!(highlight_axis_3(5, -5, 3), (Max::Neither, Max::Neither, Max::Neither));
    assert_eq!(highlight_axis_3(0, 0, 0), (Max::Neither, Max::Neither, Max::Neither));
    assert_eq!(highlight_axis_3(i16::MIN, i16::MAX, 0), (Max::Negative, Max::Neither, Max::Neither));
    assert_eq!(Max::Positive.flip_if(true), Max::Negative);
    assert_eq!(Max::Positive.flip_if(false), Max::Positive);
    assert_eq!(Max::Negative.flip_if(true), Max::Positive);
    assert_eq!(Max::Negative.flip_if(false), Max::Negative);
    assert_eq!(Max::Neither.flip_if(true), Max::Neither);
}
