use serial_sensors::data_buffer::{decoder_to_buffer, SensorDataBuffer};
use serial_sensors::dumping::{DumpAction, Dumper, FloatCell, Reading};
use serial_sensors::frame::{Frame, LinearRanges, SensorId, ValueType};
use serial_sensors::pipeline::ingest;
use serial_sensors::serial::Decoder;
use serial_sensors_proto::types as wire;
use serial_sensors_proto::versions::Version1DataFrame;

fn encode(frame: Version1DataFrame) -> Vec<u8> {
    let mut buffer = [0u8; 512];
    let range = serial_sensors_proto::serialize(frame, &mut buffer).expect("frame fits");
    buffer[range].to_vec()
}

fn convert(calibration: &LinearRanges, value: f32) -> f32 {
    serial_sensors_proto::LinearRanges {
        target: serial_sensors_proto::SensorId::default(),
        resolution_bits: calibration.resolution_bits,
        scale_op: calibration.scale_op,
        scale: calibration.scale,
        scale_decimals: calibration.scale_decimals,
        offset: calibration.offset,
        offset_decimals: calibration.offset_decimals,
    }
    .convert(value)
}

fn render(cell: &FloatCell) -> String {
    match *cell {
        FloatCell::DeviceTime { secs, millis, nanos } => format!(
            "{}",
            secs.map_or(0.0, |secs| secs as f32)
                + millis.map_or(0.0, |millis| millis as f32 / 1_000.0)
                + nanos.map_or(0.0, |nanos| nanos as f32 / 1_000_000.0)
        ),
        FloatCell::Value { bits } => format!("{}", f32::from_bits(bits)),
        FloatCell::Calibrated { raw: Reading::Integer(raw), calibration } => {
            format!("{}", convert(&calibration, raw as f32))
        }
        FloatCell::Calibrated { raw: Reading::Bits(bits), calibration } => {
            format!("{}", convert(&calibration, f32::from_bits(bits)))
        }
        FloatCell::Scaled { value, decimals } => {
            format!("{}", value as f32 * 10.0f32.powi(-(decimals as i32)))
        }
    }
}

struct Files {
    names: Vec<(SensorId, String)>,
    contents: Vec<String>,
}

fn write(files: &mut Files, action: DumpAction) {
    match action {
        DumpAction::Skip => panic!("every frame has a row"),
        DumpAction::Create { writer, file_name, header, row } => {
            assert!(files.names.iter().all(|(id, name)| *id != writer && *name != file_name));
            files.names.push((writer, file_name));
            files.contents.push(String::from_utf8(header).unwrap() + &String::from_utf8(row).unwrap());
        }
        DumpAction::Append { writer, row } => {
            let place = files.names.iter().position(|(id, _)| *id == writer).expect("an open file");
            files.contents[place].push_str(&String::from_utf8(row).unwrap());
        }
    }
}

fn content<'a>(files: &'a Files, name: &str) -> Option<&'a str> {
    let place = files.names.iter().position(|(_, file)| file == name)?;
    Some(files.contents[place].as_str())
}

struct Pipeline {
    decoder: Decoder,
    buffer: SensorDataBuffer,
    dumper: Dumper,
    files: Files,
    emitted: Vec<Frame>,
}

fn pipeline() -> Pipeline {
    Pipeline {
        decoder: Decoder::new(),
        buffer: SensorDataBuffer::default(),
        dumper: Dumper::new(),
        files: Files { names: Vec::new(), contents: Vec::new() },
        emitted: Vec::new(),
    }
}

fn read(pipeline: &mut Pipeline, bytes: &[u8], now: u64) {
    let frames = pipeline.decoder.feed(bytes);
    decoder_to_buffer(&frames, &mut pipeline.buffer, now);
    for frame in &frames {
        let floats: Vec<String> = pipeline.dumper.float_cells(frame).iter().map(render).collect();
        let action = pipeline.dumper.dump_data("1700000000.5", frame, &floats);
        write(&mut pipeline.files, action);
    }
    pipeline.emitted.extend(frames);
}

fn accelerometer(tag: u16, sequence: u32, x: i16, y: i16, z: i16) -> Version1DataFrame {
    Version1DataFrame::new(
        u32::MAX,
        u16::MAX,
        u16::MAX,
        sequence,
        sequence,
        tag,
        wire::AccelerometerI16::new(serial_sensors_proto::Vector3Data::new(x, y, z)),
    )
}

fn gyroscope(tag: u16, sequence: u32) -> Version1DataFrame {
    Version1DataFrame::new(
        1,
        0,
        0,
        sequence,
        sequence,
        tag,
        wire::GyroscopeI16::new(serial_sensors_proto::Vector3Data::new(1, 2, 3)),
    )
}

fn identification(tag: u16, target: serial_sensors_proto::SensorId, text: &str) -> Version1DataFrame {
    Version1DataFrame::new(
        1,
        0,
        0,
        0,
        0,
        tag,
        wire::Identification::new(serial_sensors_proto::Identifier::new(
            target,
            serial_sensors_proto::IdentifierCode::Product,
            text,
        )),
    )
}

#[test]
fn pipeline_fresh_start_one_accelerometer_frame() {
    let mut pipeline = pipeline();
    read(&mut pipeline, &encode(accelerometer(1, 1, 100, 200, -300)), 1);
    assert_eq!(pipeline.files.names.len(), 1);
    let file = content(&pipeline.files, "1-acc-i16-x3.csv").expect("the file of the sensor");
    let mut lines = file.lines();
    assert_eq!(
        lines.next(),
        Some("host_time,device_time,sensor_tag,num_components,value_type,x,y,z,converted_x,converted_y,converted_z")
    );
    assert_eq!(lines.next(), Some("1700000000.5,0,01,3,i16,100,200,-300,,,"));
    assert_eq!(lines.next(), None);
    let id = SensorId::new_with(1, 0x42, ValueType::SInt16);
    assert_eq!(pipeline.buffer.num_sensors(), 1);
    assert_eq!(pipeline.buffer.get_latest_by_sensor(&id), Some(pipeline.emitted[0]));
    assert_eq!(pipeline.buffer.get_skipped_by_sensor(&id), 0);
}

#[test]
fn pipeline_calibration_then_data() {
    let mut pipeline = pipeline();
    let ranges = Version1DataFrame::new(
        1,
        0,
        0,
        0,
        0,
        1,
        wire::LinearRangeInfo::new(serial_sensors_proto::LinearRanges {
            target: serial_sensors_proto::SensorId::new_with(
                1,
                0x42,
                serial_sensors_proto::ValueType::SInt16,
            ),
            resolution_bits: 16,
            scale_op: 0,
            scale: 1,
            scale_decimals: 0,
            offset: 0,
            offset_decimals: 0,
        }),
    );
    let mut stream = encode(ranges);
    stream.extend_from_slice(&encode(accelerometer(1, 1, 100, 200, -300)));
    read(&mut pipeline, &stream, 1);
    assert_eq!(pipeline.emitted.len(), 2);
    let file = content(&pipeline.files, "1-acc-i16-x3.csv").expect("the file of the sensor");
    assert!(file.ends_with(",100,200,-300,100,200,-300\n"));
    assert_eq!(file.lines().count(), 2);
    let id = SensorId::new_with(1, 0x42, ValueType::SInt16);
    let calibration = pipeline.buffer.get_calibration_by_sensor(&id).expect("a calibration");
    assert_eq!(convert(&calibration, -300.0), -300.0);
    assert_eq!(pipeline.buffer.num_sensors(), 1);
}

#[test]
fn pipeline_sequence_gap() {
    let mut pipeline = pipeline();
    for (now, sequence) in [5u32, 6, 8].into_iter().enumerate() {
        read(&mut pipeline, &encode(gyroscope(4, sequence)), now as u64);
    }
    let id = SensorId::new_with(4, 0x45, ValueType::SInt16);
    assert_eq!(pipeline.buffer.get_skipped_by_sensor(&id), 1);
    let file = content(&pipeline.files, "4-gyro-i16-x3.csv").expect("the file of the sensor");
    assert_eq!(file.lines().count(), 4);
}

#[test]
fn pipeline_resync() {
    let mut pipeline = pipeline();
    read(&mut pipeline, &[0x04, 0xDE, 0xAD, 0xBE, 0x00], 1);
    assert_eq!(pipeline.emitted.len(), 0);
    let heading = Version1DataFrame::new(
        1,
        0,
        0,
        1,
        1,
        2,
        wire::HeadingI16::new(serial_sensors_proto::ScalarData::new(42)),
    );
    read(&mut pipeline, &encode(heading), 2);
    assert_eq!(pipeline.emitted.len(), 1);
    assert_eq!(pipeline.files.names.len(), 1);
    let file = content(&pipeline.files, "2-heading-i16-x1.csv").expect("the file of the sensor");
    assert!(file.ends_with(",02,1,i16,42,\n"));
}

#[test]
fn pipeline_identification() {
    let mut pipeline = pipeline();
    let target = serial_sensors_proto::SensorId::new_with(3, 0x42, serial_sensors_proto::ValueType::SInt16);
    read(&mut pipeline, &encode(identification(3, target, "LSM303DLHC\0\0")), 1);
    let id = SensorId::new_with(3, 0x42, ValueType::SInt16);
    assert_eq!(pipeline.buffer.get_sensor_name(&id), "LSM303DLHC");
    assert_eq!(content(&pipeline.files, "3-acc-i16-x3.csv"), None);
    let file = content(&pipeline.files, "3-ident-ident-x0.csv").expect("the file of identifications");
    let mut lines = file.lines();
    assert_eq!(
        lines.next(),
        Some("host_time,device_time,sensor_tag,num_components,value_type,code,value")
    );
    assert_eq!(lines.next(), Some("1700000000.5,1,03,0,ident,product,LSM303DLHC"));
    assert_eq!(lines.next(), None);
    read(&mut pipeline, &encode(accelerometer(3, 1, 1, 2, 3)), 2);
    let data = content(&pipeline.files, "3-acc-i16-x3.csv").expect("the file of the sensor");
    assert_eq!(data.lines().count(), 2);
    assert_eq!(content(&pipeline.files, "3-ident-ident-x0.csv").unwrap().lines().count(), 2);
}

#[test]
fn pipeline_board_frame() {
    let mut pipeline = pipeline();
    read(&mut pipeline, &encode(identification(0, serial_sensors_proto::SensorId::default(), "board")), 1);
    assert_eq!(pipeline.emitted.len(), 1);
    let file = content(&pipeline.files, "0-ident-ident-x0.csv").expect("the file of identifications");
    assert!(file.ends_with(",00,0,ident,product,board\n"));
    assert_eq!(pipeline.buffer.num_sensors(), 0);
}

#[test]
fn rows_follow_the_frames_of_each_sensor() {
    let mut pipeline = pipeline();
    let mut stream = Vec::new();
    for sequence in 0..10u32 {
        stream.extend_from_slice(&encode(accelerometer(1, sequence, sequence as i16, 0, 0)));
        if sequence % 3 == 0 {
            stream.extend_from_slice(&encode(gyroscope(2, sequence)));
        }
        stream.push(0);
    }
    for (now, chunk) in stream.chunks(stream.len()).enumerate() {
        read(&mut pipeline, chunk, now as u64);
    }
    assert_eq!(pipeline.emitted.len(), 14);
    let acc = content(&pipeline.files, "1-acc-i16-x3.csv").unwrap();
    assert_eq!(acc.lines().count(), 11);
    for (sequence, line) in acc.lines().skip(1).enumerate() {
        assert!(line.ends_with(&format!(",i16,{},0,0,,,", sequence)));
    }
    assert_eq!(content(&pipeline.files, "2-gyro-i16-x3.csv").unwrap().lines().count(), 5);
    let mut latest = Vec::new();
    assert_eq!(pipeline.buffer.clone_latest(100, &mut latest), 14);
    latest.reverse();
    assert_eq!(latest, pipeline.emitted);
}

#[test]
fn ingest_hands_every_frame_to_the_live_view_and_on() {
    let mut decoder = Decoder::new();
    let mut buffer = SensorDataBuffer::default();
    let mut stream = encode(gyroscope(4, 5));
    stream.extend_from_slice(&encode(accelerometer(1, 1, 1, 2, 3)));
    stream.extend_from_slice(&encode(gyroscope(4, 7))[..10]);
    let frames = ingest(&mut decoder, &mut buffer, &stream, 100);
    assert_eq!(frames.len(), 2);
    assert_eq!(buffer.len(), 2);
    assert_eq!(buffer.num_sensors(), 2);
    let mut latest = Vec::new();
    buffer.clone_latest(2, &mut latest);
    assert_eq!(latest, vec![frames[1], frames[0]]);
    assert_eq!(decoder.pending(), 10);
    let more = ingest(&mut decoder, &mut buffer, &encode(gyroscope(4, 7))[10..], 200);
    assert_eq!(more.len(), 1);
    assert_eq!(buffer.len(), 3);
    assert_eq!(
        buffer.get_skipped_by_sensor(&SensorId::new_with(4, 0x45, ValueType::SInt16)),
        1
    );
    assert!(buffer.now() > 0);
}
