use serial_sensors::dumping::{
    create_data_row, create_header_row, csv_convert_push_scalar, csv_convert_push_vec3,
    csv_convert_push_vec4, decode_device_time, file_name, float_cells, ident_code, map_data,
    value_type_code, DumpAction, Dumper, FloatCell, Reading,
};
use serial_sensors::frame::{
    Frame, Identification, IdentifierCode, LinearRanges, SensorData, SensorId, ValueType, Vector3,
    VectorBits3, VectorBits4,
};

fn wire_ranges(calibration: &LinearRanges) -> serial_sensors_proto::LinearRanges {
    serial_sensors_proto::LinearRanges {
        target: serial_sensors_proto::SensorId::default(),
        resolution_bits: calibration.resolution_bits,
        scale_op: calibration.scale_op,
        scale: calibration.scale,
        scale_decimals: calibration.scale_decimals,
        offset: calibration.offset,
        offset_decimals: calibration.offset_decimals,
    }
}

fn render_cell(cell: &FloatCell) -> String {
    match *cell {
        FloatCell::DeviceTime { secs, millis, nanos } => {
            let mut time = 0.0f32;
            if let Some(secs) = secs {
                time += secs as f32;
            }
            if let Some(millis) = millis {
                time += millis as f32 / 1_000.0;
            }
            if let Some(nanos) = nanos {
                time += nanos as f32 / 1_000_000.0;
            }
            format!("{}", time)
        }
        FloatCell::Value { bits } => format!("{}", f32::from_bits(bits)),
        FloatCell::Calibrated { raw: Reading::Integer(raw), calibration } => {
            format!("{}", wire_ranges(&calibration).convert(raw as f32))
        }
        FloatCell::Calibrated { raw: Reading::Bits(bits), calibration } => {
            format!("{}", wire_ranges(&calibration).convert(f32::from_bits(bits)))
        }
        FloatCell::Scaled { value, decimals } => {
            format!("{}", value as f32 * 10.0f32.powi(-(decimals as i32)))
        }
    }
}

fn render(cells: &[FloatCell]) -> Vec<String> {
    cells.iter().map(render_cell).collect()
}

fn text(bytes: &[u8]) -> String {
    String::from_utf8(bytes.to_vec()).expect("rows are text")
}

fn frame(tag: u16, sequence: u32, value: SensorData) -> Frame {
    Frame::new(12, 500, 250, 100 + sequence, sequence, tag, value)
}

fn accelerometer(tag: u16, sequence: u32) -> Frame {
    frame(tag, sequence, SensorData::AccelerometerI16(Vector3 { x: 100, y: 200, z: -300 }))
}

fn unit_calibration(target: SensorId) -> LinearRanges {
    LinearRanges {
        target,
        resolution_bits: 16,
        scale_op: 0,
        scale: 1,
        scale_decimals: 0,
        offset: 0,
        offset_decimals: 0,
    }
}

fn padded(text: &[u8]) -> [u8; 64] {
    let mut value = [0x20u8; 64];
    value[..text.len()].copy_from_slice(text);
    value
}

fn dump(dumper: &mut Dumper, data: &Frame) -> DumpAction {
    let floats = render(&dumper.float_cells(data));
    dumper.dump_data("1700000000.25", data, &floats)
}

#[test]
fn payload_variants_have_their_tags() {
    let v = Vector3 { x: 0, y: 0, z: 0 };
    let id = SensorId::new_with(1, 0x42, ValueType::SInt16);
    assert_eq!(map_data(&SensorData::SystemClockFrequency(1)), "clock");
    assert_eq!(map_data(&SensorData::AccelerometerI16(v)), "acc");
    assert_eq!(map_data(&SensorData::MagnetometerI16(v)), "mag");
    assert_eq!(map_data(&SensorData::TemperatureI16(1)), "temp");
    assert_eq!(map_data(&SensorData::GyroscopeI16(v)), "gyro");
    assert_eq!(map_data(&SensorData::HeadingI16(1)), "heading");
    assert_eq!(map_data(&SensorData::EulerAnglesF32(VectorBits3 { x: 0, y: 0, z: 0 })), "euler");
    assert_eq!(
        map_data(&SensorData::OrientationQuaternionF32(VectorBits4 { a: 0, b: 0, c: 0, d: 0 })),
        "quat"
    );
    assert_eq!(map_data(&SensorData::LinearRanges(unit_calibration(id))), "lranges");
    assert_eq!(
        map_data(&SensorData::Identification(Identification {
            target: id,
            code: IdentifierCode::Generic,
            value: padded(b""),
        })),
        "ident"
    );
}

#[test]
fn value_types_have_their_codes() {
    let codes = [
        (ValueType::UInt8, "u8"),
        (ValueType::SInt8, "i8"),
        (ValueType::UInt16, "u16"),
        (ValueType::SInt16, "i16"),
        (ValueType::UInt32, "u32"),
        (ValueType::SInt32, "i32"),
        (ValueType::UInt64, "u64"),
        (ValueType::SInt64, "i64"),
        (ValueType::UInt128, "u128"),
        (ValueType::SInt128, "i128"),
        (ValueType::Float32, "f32"),
        (ValueType::Float64, "f64"),
        (ValueType::Q8_8, "Q8_8"),
        (ValueType::Q16_16, "Q16_16"),
        (ValueType::Q32_32, "Q32_32"),
        (ValueType::LinearRange, "lrange"),
        (ValueType::Identifier, "ident"),
    ];
    for (value_type, code) in codes {
        assert_eq!(value_type_code(value_type), code);
    }
}

#[test]
fn identification_codes_have_their_texts() {
    assert_eq!(ident_code(IdentifierCode::Generic), "generic");
    assert_eq!(ident_code(IdentifierCode::Maker), "maker");
    assert_eq!(ident_code(IdentifierCode::Product), "product");
    assert_eq!(ident_code(IdentifierCode::Revision), "revision");
}

#[test]
fn header_rows_by_variant() {
    let id = SensorId::new_with(1, 0x42, ValueType::SInt16);
    let v = Vector3 { x: 0, y: 0, z: 0 };
    let common = "host_time,device_time,sensor_tag,num_components,value_type";
    let vector = ",x,y,z,converted_x,converted_y,converted_z\n";
    let cases: Vec<(SensorData, String)> = vec![
        (SensorData::SystemClockFrequency(1), format!("{common},freq\n")),
        (SensorData::AccelerometerI16(v), format!("{common}{vector}")),
        (SensorData::MagnetometerI16(v), format!("{common}{vector}")),
        (SensorData::GyroscopeI16(v), format!("{common}{vector}")),
        (
            SensorData::EulerAnglesF32(VectorBits3 { x: 0, y: 0, z: 0 }),
            format!("{common}{vector}"),
        ),
        (SensorData::TemperatureI16(1), format!("{common},temp,converted_temp\n")),
        (SensorData::HeadingI16(1), format!("{common},heading,converted_heading\n")),
        (
            SensorData::OrientationQuaternionF32(VectorBits4 { a: 0, b: 0, c: 0, d: 0 }),
            format!("{common},a,b,c,d,converted_a,converted_b,converted_c,converted_d\n"),
        ),
        (
            SensorData::LinearRanges(unit_calibration(id)),
            format!(
                "{common},resolution_bits,scale_op,scale,scale_raw,scale_decimals,offset,offset_raw,offset_decimals\n"
            ),
        ),
        (
            SensorData::Identification(Identification {
                target: id,
                code: IdentifierCode::Generic,
                value: padded(b""),
            }),
            format!("{common},code,value\n"),
        ),
    ];
    for (value, header) in cases {
        assert_eq!(text(&create_header_row(&frame(1, 1, value))), header);
    }
}

#[test]
fn file_names_by_sensor() {
    let v = Vector3 { x: 0, y: 0, z: 0 };
    let acc = frame(1, 1, SensorData::AccelerometerI16(v));
    assert_eq!(file_name(&acc.sensor_id(), &acc.value), "1-acc-i16-x3.csv");
    let gyro = frame(300, 1, SensorData::GyroscopeI16(v));
    assert_eq!(file_name(&gyro.sensor_id(), &gyro.value), "300-gyro-i16-x3.csv");
    let heading = frame(2, 1, SensorData::HeadingI16(42));
    assert_eq!(file_name(&heading.sensor_id(), &heading.value), "2-heading-i16-x1.csv");
    let temp = frame(0, 1, SensorData::TemperatureI16(42));
    assert_eq!(file_name(&temp.sensor_id(), &temp.value), "0-temp-i16-x1.csv");
    let clock = frame(4, 1, SensorData::SystemClockFrequency(42));
    assert_eq!(file_name(&clock.sensor_id(), &clock.value), "4-clock-u32-x1.csv");
    let euler = frame(5, 1, SensorData::EulerAnglesF32(VectorBits3 { x: 0, y: 0, z: 0 }));
    assert_eq!(file_name(&euler.sensor_id(), &euler.value), "5-euler-f32-x3.csv");
    let quat = frame(
        65535,
        1,
        SensorData::OrientationQuaternionF32(VectorBits4 { a: 0, b: 0, c: 0, d: 0 }),
    );
    assert_eq!(file_name(&quat.sensor_id(), &quat.value), "65535-quat-f32-x4.csv");
    let ranges = frame(7, 1, SensorData::LinearRanges(unit_calibration(acc.sensor_id())));
    assert_eq!(file_name(&ranges.sensor_id(), &ranges.value), "7-lranges-lrange-x0.csv");
}

#[test]
fn device_time_leaves_out_absent_fields() {
    let mut data = accelerometer(1, 1);
    assert_eq!(
        decode_device_time(&data),
        FloatCell::DeviceTime { secs: Some(12), millis: Some(500), nanos: Some(250) }
    );
    data.system_nanos = u16::MAX;
    assert_eq!(
        decode_device_time(&data),
        FloatCell::DeviceTime { secs: Some(12), millis: Some(500), nanos: None }
    );
    data.system_millis = u16::MAX;
    assert_eq!(
        decode_device_time(&data),
        FloatCell::DeviceTime { secs: Some(12), millis: None, nanos: None }
    );
    data.system_secs = u32::MAX;
    assert_eq!(
        decode_device_time(&data),
        FloatCell::DeviceTime { secs: None, millis: None, nanos: None }
    );
    data.system_millis = 7;
    assert_eq!(
        decode_device_time(&data),
        FloatCell::DeviceTime { secs: None, millis: Some(7), nanos: None }
    );
    assert_eq!(render_cell(&decode_device_time(&data)), "0.007");
}

#[test]
fn uncalibrated_vector_row_has_empty_converted_columns() {
    let data = accelerometer(1, 1);
    let cells = float_cells(&data, None);
    assert_eq!(
        cells,
        vec![FloatCell::DeviceTime { secs: Some(12), millis: Some(500), nanos: Some(250) }]
    );
    let row = create_data_row("1700000000.25", &data.sensor_id(), &data, None, &render(&cells));
    assert_eq!(
        text(&row.expect("the texts fit")),
        "1700000000.25,12.50025,01,3,i16,100,200,-300,,,\n"
    );
}

#[test]
fn calibrated_vector_row_has_converted_columns() {
    let data = frame(10, 1, SensorData::MagnetometerI16(Vector3 { x: 384, y: -1100, z: 0 }));
    let calibration = LinearRanges { scale: 1100, ..unit_calibration(data.sensor_id()) };
    let cells = float_cells(&data, Some(calibration));
    assert_eq!(
        cells[1..],
        [
            FloatCell::Calibrated { raw: Reading::Integer(384), calibration },
            FloatCell::Calibrated { raw: Reading::Integer(-1100), calibration },
            FloatCell::Calibrated { raw: Reading::Integer(0), calibration },
        ]
    );
    let row = create_data_row("5", &data.sensor_id(), &data, Some(calibration), &render(&cells));
    assert_eq!(
        text(&row.expect("the texts fit")),
        "5,12.50025,0A,3,i16,384,-1100,0,0.3490909,-1,0\n"
    );
}

#[test]
fn calibration_with_offset_is_applied_to_scalars() {
    let data = frame(2, 1, SensorData::TemperatureI16(73));
    let calibration = LinearRanges { scale: 8, offset: 20, ..unit_calibration(data.sensor_id()) };
    let cells = float_cells(&data, Some(calibration));
    let row = create_data_row("5", &data.sensor_id(), &data, Some(calibration), &render(&cells));
    assert_eq!(text(&row.expect("the texts fit")), "5,12.50025,02,1,i16,73,29.125\n");
    let uncalibrated = create_data_row("5", &data.sensor_id(), &data, None, &render(&cells[..1]));
    assert_eq!(text(&uncalibrated.expect("the texts fit")), "5,12.50025,02,1,i16,73,\n");
}

#[test]
fn rows_of_the_other_variants() {
    let id = SensorId::new_with(1, 0x42, ValueType::SInt16);
    let clock = frame(255, 1, SensorData::SystemClockFrequency(72_000_000));
    let row = create_data_row("5", &clock.sensor_id(), &clock, None, &render(&float_cells(&clock, None)));
    assert_eq!(text(&row.unwrap()), "5,12.50025,FF,1,u32,72000000\n");

    let euler = frame(
        256,
        1,
        SensorData::EulerAnglesF32(VectorBits3 {
            x: 0.5f32.to_bits(),
            y: (-1.25f32).to_bits(),
            z: 3.0f32.to_bits(),
        }),
    );
    let row = create_data_row("5", &euler.sensor_id(), &euler, None, &render(&float_cells(&euler, None)));
    assert_eq!(text(&row.unwrap()), "5,12.50025,100,3,f32,0.5,-1.25,3,,,\n");
    let halving = LinearRanges { scale: 2, ..unit_calibration(euler.sensor_id()) };
    let cells = float_cells(&euler, Some(halving));
    assert_eq!(cells.len(), 7);
    let row = create_data_row("5", &euler.sensor_id(), &euler, Some(halving), &render(&cells));
    assert_eq!(text(&row.unwrap()), "5,12.50025,100,3,f32,0.5,-1.25,3,0.25,-0.625,1.5\n");

    let quat = frame(
        3,
        1,
        SensorData::OrientationQuaternionF32(VectorBits4 {
            a: 1.0f32.to_bits(),
            b: 0.0f32.to_bits(),
            c: (-0.5f32).to_bits(),
            d: 0.25f32.to_bits(),
        }),
    );
    let row = create_data_row("5", &quat.sensor_id(), &quat, None, &render(&float_cells(&quat, None)));
    assert_eq!(text(&row.unwrap()), "5,12.50025,03,4,f32,1,0,-0.5,0.25,,,,\n");
    let cells = float_cells(&quat, Some(halving));
    let row = create_data_row("5", &quat.sensor_id(), &quat, Some(halving), &render(&cells));
    assert_eq!(
        text(&row.unwrap()),
        "5,12.50025,03,4,f32,1,0,-0.5,0.25,0.5,0,-0.25,0.125\n"
    );

    let ranges = frame(
        1,
        1,
        SensorData::LinearRanges(LinearRanges {
            target: id,
            resolution_bits: 12,
            scale_op: 10,
            scale: 16384,
            scale_decimals: 2,
            offset: -25,
            offset_decimals: 1,
        }),
    );
    let cells = float_cells(&ranges, None);
    assert_eq!(
        cells[1..],
        [
            FloatCell::Scaled { value: 16384, decimals: 2 },
            FloatCell::Scaled { value: -25, decimals: 1 },
        ]
    );
    let row = create_data_row("5", &ranges.sensor_id(), &ranges, None, &render(&cells));
    assert_eq!(text(&row.unwrap()), "5,12.50025,01,0,lrange,12,0A,163.84,16384,2,-2.5,-25,1\n");

    let ident = frame(
        1,
        1,
        SensorData::Identification(Identification {
            target: id,
            code: IdentifierCode::Maker,
            value: padded(b"STMicro \t"),
        }),
    );
    let row = create_data_row("5", &ident.sensor_id(), &ident, None, &render(&float_cells(&ident, None)));
    assert_eq!(text(&row.unwrap()), "5,12.50025,01,0,ident,maker,STMicro\n");
}

#[test]
fn identification_that_is_not_text_has_an_empty_value() {
    let mut value = padded(b"abc");
    value[1] = 0xFF;
    let ident = frame(
        1,
        1,
        SensorData::Identification(Identification {
            target: SensorId::new_with(1, 0x42, ValueType::SInt16),
            code: IdentifierCode::Revision,
            value,
        }),
    );
    let row = create_data_row("5", &ident.sensor_id(), &ident, None, &render(&float_cells(&ident, None)));
    assert_eq!(text(&row.unwrap()), "5,12.50025,01,0,ident,revision,\n");
}

#[test]
fn no_row_without_the_texts_of_its_float_columns() {
    let data = accelerometer(1, 1);
    let calibration = unit_calibration(data.sensor_id());
    let one = vec![String::from("0")];
    let four = vec![String::from("0"); 4];
    assert_eq!(create_data_row("5", &data.sensor_id(), &data, None, &Vec::new()), None);
    assert_eq!(create_data_row("5", &data.sensor_id(), &data, None, &four), None);
    assert_eq!(create_data_row("5", &data.sensor_id(), &data, Some(calibration), &one), None);
    assert!(create_data_row("5", &data.sensor_id(), &data, Some(calibration), &four).is_some());
}

#[test]
fn fresh_start_one_accelerometer_frame_is_dumped() {
    let mut dumper = Dumper::new();
    let data = accelerometer(1, 1);
    match dump(&mut dumper, &data) {
        DumpAction::Create { writer, file_name, header, row } => {
            assert_eq!(writer, data.sensor_id());
            assert_eq!(file_name, "1-acc-i16-x3.csv");
            assert_eq!(
                text(&header),
                "host_time,device_time,sensor_tag,num_components,value_type,x,y,z,converted_x,converted_y,converted_z\n"
            );
            assert!(text(&row).ends_with(",100,200,-300,,,\n"));
        }
        other => panic!("expected a new file, got {:?}", other),
    }
    assert!(dumper.has_writer(&data.sensor_id()));
    match dump(&mut dumper, &accelerometer(1, 2)) {
        DumpAction::Append { writer, row } => {
            assert_eq!(writer, data.sensor_id());
            assert_eq!(text(&row), "1700000000.25,12.50025,01,3,i16,100,200,-300,,,\n");
        }
        other => panic!("expected a row for the open file, got {:?}", other),
    }
}

#[test]
fn calibration_then_data_is_dumped_converted() {
    let mut dumper = Dumper::new();
    let data = accelerometer(1, 1);
    let ranges = frame(1, 0, SensorData::LinearRanges(unit_calibration(data.sensor_id())));
    match dump(&mut dumper, &ranges) {
        DumpAction::Create { file_name, row, .. } => {
            assert_eq!(file_name, "1-lranges-lrange-x0.csv");
            assert_eq!(text(&row), "1700000000.25,12.50025,01,0,lrange,16,00,1,1,0,0,0,0\n");
        }
        other => panic!("expected a new file, got {:?}", other),
    }
    assert_eq!(dumper.calibration(&data.sensor_id()), Some(unit_calibration(data.sensor_id())));
    match dump(&mut dumper, &data) {
        DumpAction::Create { file_name, row, .. } => {
            assert_eq!(file_name, "1-acc-i16-x3.csv");
            assert!(text(&row).ends_with(",100,200,-300,100,200,-300\n"));
        }
        other => panic!("expected a new file, got {:?}", other),
    }
}

#[test]
fn later_calibration_replaces_the_earlier() {
    let mut dumper = Dumper::new();
    let data = accelerometer(1, 1);
    let first = LinearRanges { scale: 2, ..unit_calibration(data.sensor_id()) };
    let second = LinearRanges { scale: 4, ..unit_calibration(data.sensor_id()) };
    dump(&mut dumper, &frame(1, 0, SensorData::LinearRanges(first)));
    dump(&mut dumper, &frame(1, 0, SensorData::LinearRanges(second)));
    assert_eq!(dumper.calibration(&data.sensor_id()), Some(second));
    assert_eq!(dumper.calibration_for(&data), Some(second));
    match dump(&mut dumper, &data) {
        DumpAction::Create { row, .. } => assert!(text(&row).ends_with(",100,200,-300,25,50,-75\n")),
        other => panic!("expected a new file, got {:?}", other),
    }
}

#[test]
fn calibration_of_one_sensor_leaves_the_others_uncalibrated() {
    let mut dumper = Dumper::new();
    let data = accelerometer(1, 1);
    let other = accelerometer(2, 1);
    dump(&mut dumper, &frame(1, 0, SensorData::LinearRanges(unit_calibration(data.sensor_id()))));
    assert_eq!(dumper.calibration(&other.sensor_id()), None);
    match dump(&mut dumper, &other) {
        DumpAction::Create { row, .. } => assert!(text(&row).ends_with(",100,200,-300,,,\n")),
        other => panic!("expected a new file, got {:?}", other),
    }
}

#[test]
fn identification_is_dumped_to_a_file_of_its_own() {
    let mut dumper = Dumper::new();
    let target = SensorId::new_with(3, 0x42, ValueType::SInt16);
    let ident = frame(
        3,
        0,
        SensorData::Identification(Identification {
            target,
            code: IdentifierCode::Product,
            value: padded(b"LSM303DLHC\0\0"),
        }),
    );
    match dump(&mut dumper, &ident) {
        DumpAction::Create { writer, file_name, header, row } => {
            assert_eq!(writer, SensorId::new_with(3, 0xFF, ValueType::Identifier));
            assert_eq!(file_name, "3-ident-ident-x0.csv");
            assert!(text(&header).ends_with(",code,value\n"));
            assert!(text(&row).ends_with(",product,LSM303DLHC\n"));
        }
        other => panic!("expected a new file, got {:?}", other),
    }
    assert!(!dumper.has_writer(&target));
}

#[test]
fn board_frame_is_dumped() {
    let mut dumper = Dumper::new();
    let ident = frame(
        0,
        0,
        SensorData::Identification(Identification {
            target: SensorId::new_with(0, 0, ValueType::Identifier),
            code: IdentifierCode::Generic,
            value: padded(b"board"),
        }),
    );
    match dump(&mut dumper, &ident) {
        DumpAction::Create { file_name, row, .. } => {
            assert_eq!(file_name, "0-ident-ident-x0.csv");
            assert!(text(&row).ends_with(",generic,board\n"));
        }
        other => panic!("expected a new file, got {:?}", other),
    }
}

#[test]
fn one_row_for_every_frame_of_a_sensor() {
    let mut dumper = Dumper::new();
    let first = accelerometer(1, 1);
    let mut rows = 0;
    let mut headers = 0;
    let frames = [
        accelerometer(1, 1),
        frame(1, 1, SensorData::LinearRanges(unit_calibration(first.sensor_id()))),
        accelerometer(1, 2),
        accelerometer(2, 1),
        frame(1, 2, SensorData::TemperatureI16(5)),
        accelerometer(1, 3),
    ];
    for data in &frames {
        match dump(&mut dumper, data) {
            DumpAction::Create { writer, .. } if writer == first.sensor_id() => {
                rows += 1;
                headers += 1;
            }
            DumpAction::Append { writer, .. } if writer == first.sensor_id() => rows += 1,
            DumpAction::Skip => panic!("every frame has a row"),
            _ => {}
        }
    }
    assert_eq!(rows, 3);
    assert_eq!(headers, 1);
}

#[test]
fn frame_without_its_texts_is_skipped_but_its_calibration_is_kept() {
    let mut dumper = Dumper::new();
    let data = accelerometer(1, 1);
    let ranges = frame(1, 0, SensorData::LinearRanges(unit_calibration(data.sensor_id())));
    assert_eq!(dumper.dump_data("5", &ranges, &Vec::new()), DumpAction::Skip);
    assert!(!dumper.has_writer(&ranges.sensor_id()));
    assert_eq!(dumper.calibration(&data.sensor_id()), Some(unit_calibration(data.sensor_id())));
}

#[test]
fn different_sensors_have_different_files() {
    let v = Vector3 { x: 0, y: 0, z: 0 };
    let frames = [
        frame(1, 1, SensorData::AccelerometerI16(v)),
        frame(11, 1, SensorData::AccelerometerI16(v)),
        frame(1, 1, SensorData::MagnetometerI16(v)),
        frame(1, 1, SensorData::GyroscopeI16(v)),
        frame(1, 1, SensorData::TemperatureI16(1)),
        frame(1, 1, SensorData::HeadingI16(1)),
        frame(1, 1, SensorData::SystemClockFrequency(1)),
        frame(1, 1, SensorData::EulerAnglesF32(VectorBits3 { x: 0, y: 0, z: 0 })),
        frame(1, 1, SensorData::OrientationQuaternionF32(VectorBits4 { a: 0, b: 0, c: 0, d: 0 })),
        frame(1, 1, SensorData::LinearRanges(unit_calibration(SensorId::new_with(1, 0x42, ValueType::SInt16)))),
        frame(
            1,
            1,
            SensorData::Identification(Identification {
                target: SensorId::new_with(1, 0x42, ValueType::SInt16),
                code: IdentifierCode::Generic,
                value: padded(b""),
            }),
        ),
    ];
    let mut dumper = Dumper::new();
    let mut names = Vec::new();
    for data in &frames {
        assert_eq!(file_name(&data.sensor_id(), &data.value), file_name(&data.sensor_id(), &data.value));
        match dump(&mut dumper, data) {
            DumpAction::Create { file_name, .. } => names.push(file_name),
            other => panic!("expected a new file, got {:?}", other),
        }
    }
    for (place, name) in names.iter().enumerate() {
        assert!(!names[..place].contains(name));
    }
    for data in &frames {
        assert!(matches!(dump(&mut dumper, data), DumpAction::Append { .. }));
    }
}

#[test]
fn converted_columns_are_filled_or_left_empty() {
    let floats: Vec<String> = ["t", "1.5", "-2", "3", "4.25"].iter().map(|s| s.to_string()).collect();
    let mut row = String::from("x");
    csv_convert_push_scalar(&mut row, &floats, 1, true);
    assert_eq!(row, "x,1.5");
    csv_convert_push_scalar(&mut row, &floats, 1, false);
    assert_eq!(row, "x,1.5,");
    let mut row = String::from("1,2,3");
    csv_convert_push_vec3(&mut row, &floats, 1, true);
    assert_eq!(row, "1,2,3,1.5,-2,3");
    let mut row = String::from("1,2,3");
    csv_convert_push_vec3(&mut row, &floats, 1, false);
    assert_eq!(row, "1,2,3,,,");
    let mut row = String::new();
    csv_convert_push_vec4(&mut row, &floats, 1, true);
    assert_eq!(row, ",1.5,-2,3,4.25");
    let mut row = String::new();
    csv_convert_push_vec4(&mut row, &Vec::new(), 1, false);
    assert_eq!(row, ",,,,");
}
