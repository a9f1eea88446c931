//! The rows of the per-sensor CSV files.
//!
//! Every floating-point column of a row is rendered by the host: the library
//! says which values those are ([`float_cells`]), takes their text back and
//! lays out the row ([`create_data_row`]).

use crate::frame::{
    Frame, IdentifierCode, LinearRanges, SensorData, SensorId, ValueType, Vector3, ABSENT_U16,
    ABSENT_U32,
};
use crate::text::{
    decimal, identification_string, lemma_decimal_digits, lemma_decimal_injective, identification_text, push_decimal, push_signed_decimal,
    push_upper_hex2, signed_decimal, upper_hex2,
};
use std::collections::{HashMap, HashSet};
use vstd::prelude::*;
use vstd::std_specs::hash::*;
use vstd::string::*;
use vstd::utf8::*;

verus! {

broadcast use vstd::std_specs::hash::group_hash_axioms;

/// The short tag of a payload variant, as file names hold it.
pub open spec fn sensor_data_tag(data: SensorData) -> Seq<char> {
    match data {
        SensorData::SystemClockFrequency(_) => "clock"@,
        SensorData::AccelerometerI16(_) => "acc"@,
        SensorData::MagnetometerI16(_) => "mag"@,
        SensorData::TemperatureI16(_) => "temp"@,
        SensorData::GyroscopeI16(_) => "gyro"@,
        SensorData::HeadingI16(_) => "heading"@,
        SensorData::EulerAnglesF32(_) => "euler"@,
        SensorData::OrientationQuaternionF32(_) => "quat"@,
        SensorData::LinearRanges(_) => "lranges"@,
        SensorData::Identification(_) => "ident"@,
    }
}

/// The short tag of a payload variant.
pub fn map_data(data: &SensorData) -> (tag: &'static str)
    ensures
        tag@ == sensor_data_tag(*data),
{
    match data {
        SensorData::SystemClockFrequency(_) => "clock",
        SensorData::AccelerometerI16(_) => "acc",
        SensorData::MagnetometerI16(_) => "mag",
        SensorData::TemperatureI16(_) => "temp",
        SensorData::GyroscopeI16(_) => "gyro",
        SensorData::HeadingI16(_) => "heading",
        SensorData::EulerAnglesF32(_) => "euler",
        SensorData::OrientationQuaternionF32(_) => "quat",
        SensorData::LinearRanges(_) => "lranges",
        SensorData::Identification(_) => "ident",
    }
}

/// The text of an identification code.
pub open spec fn ident_code_text(code: IdentifierCode) -> Seq<char> {
    match code {
        IdentifierCode::Generic => "generic"@,
        IdentifierCode::Maker => "maker"@,
        IdentifierCode::Product => "product"@,
        IdentifierCode::Revision => "revision"@,
    }
}

/// The text of an identification code.
pub fn ident_code(code: IdentifierCode) -> (text: &'static str)
    ensures
        text@ == ident_code_text(code),
{
    match code {
        IdentifierCode::Generic => "generic",
        IdentifierCode::Maker => "maker",
        IdentifierCode::Product => "product",
        IdentifierCode::Revision => "revision",
    }
}

/// The short code of a value type.
pub open spec fn value_type_text(vt: ValueType) -> Seq<char> {
    match vt {
        ValueType::UInt8 => "u8"@,
        ValueType::SInt8 => "i8"@,
        ValueType::UInt16 => "u16"@,
        ValueType::SInt16 => "i16"@,
        ValueType::UInt32 => "u32"@,
        ValueType::SInt32 => "i32"@,
        ValueType::UInt64 => "u64"@,
        ValueType::SInt64 => "i64"@,
        ValueType::UInt128 => "u128"@,
        ValueType::SInt128 => "i128"@,
        ValueType::Float32 => "f32"@,
        ValueType::Float64 => "f64"@,
        ValueType::Q8_8 => "Q8_8"@,
        ValueType::Q16_16 => "Q16_16"@,
        ValueType::Q32_32 => "Q32_32"@,
        ValueType::LinearRange => "lrange"@,
        ValueType::Identifier => "ident"@,
    }
}

/// The short code of a value type.
pub fn value_type_code(vt: ValueType) -> (code: &'static str)
    ensures
        code@ == value_type_text(vt),
{
    match vt {
        ValueType::UInt8 => "u8",
        ValueType::SInt8 => "i8",
        ValueType::UInt16 => "u16",
        ValueType::SInt16 => "i16",
        ValueType::UInt32 => "u32",
        ValueType::SInt32 => "i32",
        ValueType::UInt64 => "u64",
        ValueType::SInt64 => "i64",
        ValueType::UInt128 => "u128",
        ValueType::SInt128 => "i128",
        ValueType::Float32 => "f32",
        ValueType::Float64 => "f64",
        ValueType::Q8_8 => "Q8_8",
        ValueType::Q16_16 => "Q16_16",
        ValueType::Q32_32 => "Q32_32",
        ValueType::LinearRange => "lrange",
        ValueType::Identifier => "ident",
    }
}

/// The number of components that file names and rows state for a sensor:
/// zero where the sensor type and encoding describe no data reading.
pub open spec fn stated_components(target: SensorId) -> nat {
    match target.spec_num_components() {
        Some(count) => count as nat,
        None => 0,
    }
}

/// The name of the file of a sensor: tag, variant tag, value type and
/// component count.
pub open spec fn file_name_text(target: SensorId, data: SensorData) -> Seq<char> {
    decimal(target.tag as nat) + "-"@ + sensor_data_tag(data) + "-"@ + value_type_text(
        target.value_type,
    ) + "-x"@ + decimal(stated_components(target)) + ".csv"@
}

/// The name of the file that receives the rows of `target`, whose first
/// frame carries `data`.
pub fn file_name(target: &SensorId, data: &SensorData) -> (name: String)
    ensures
        name@ == file_name_text(*target, *data),
{
    let mut name = String::new();
    push_decimal(&mut name, target.tag() as u64);
    assert(name@ =~= decimal(target.tag as nat));
    name.append("-");
    name.append(map_data(data));
    name.append("-");
    name.append(value_type_code(target.value_type()));
    name.append("-x");
    let count: u8 = match target.num_components() {
        Some(count) => count,
        None => 0,
    };
    push_decimal(&mut name, count as u64);
    name.append(".csv");
    name
}

/// Texts without a hyphen that are followed by a hyphen are told apart by
/// the hyphen: where two such texts with what follows them are the same
/// text, so are the two texts, and so is what follows them.
pub proof fn lemma_split_at_hyphen(
    head: Seq<char>,
    rest: Seq<char>,
    other_head: Seq<char>,
    other_rest: Seq<char>,
)
    requires
        forall|i: int| 0 <= i < head.len() ==> #[trigger] head[i] != '-',
        forall|i: int| 0 <= i < other_head.len() ==> #[trigger] other_head[i] != '-',
        head + seq!['-'] + rest == other_head + seq!['-'] + other_rest,
    ensures
        head == other_head,
        rest == other_rest,
{
    let text = head + seq!['-'] + rest;
    let other = other_head + seq!['-'] + other_rest;
    if head.len() < other_head.len() {
        assert(text[head.len() as int] == '-');
    } else if other_head.len() < head.len() {
        assert(other[other_head.len() as int] == '-');
    }
    assert(head.len() == other_head.len());
    assert forall|i: int| 0 <= i < head.len() implies head[i] == other_head[i] by {
        assert(text[i] == head[i]);
        assert(other[i] == other_head[i]);
    }
    assert(text.len() == other.len());
    assert forall|i: int| 0 <= i < rest.len() implies rest[i] == other_rest[i] by {
        assert(text[head.len() + 1 + i] == rest[i]);
        assert(other[head.len() + 1 + i] == other_rest[i]);
    }
    assert(rest =~= other_rest);
}

/// The tags of the payload variants hold no hyphen and start with
/// different letters.
pub proof fn lemma_sensor_data_tags(data: SensorData)
    ensures
        forall|i: int|
            0 <= i < sensor_data_tag(data).len() ==> #[trigger] sensor_data_tag(data)[i] != '-',
        sensor_data_tag(data).len() > 0,
        sensor_data_tag(data)[0] == (match data {
            SensorData::SystemClockFrequency(_) => 'c',
            SensorData::AccelerometerI16(_) => 'a',
            SensorData::MagnetometerI16(_) => 'm',
            SensorData::TemperatureI16(_) => 't',
            SensorData::GyroscopeI16(_) => 'g',
            SensorData::HeadingI16(_) => 'h',
            SensorData::EulerAnglesF32(_) => 'e',
            SensorData::OrientationQuaternionF32(_) => 'q',
            SensorData::LinearRanges(_) => 'l',
            SensorData::Identification(_) => 'i',
        }),
{
    reveal_strlit("clock");
    reveal_strlit("acc");
    reveal_strlit("mag");
    reveal_strlit("temp");
    reveal_strlit("gyro");
    reveal_strlit("heading");
    reveal_strlit("euler");
    reveal_strlit("quat");
    reveal_strlit("lranges");
    reveal_strlit("ident");
}

/// No two sensors share a file: two frames whose files have the same name
/// travel under the same sensor ID.
pub proof fn lemma_file_names_tell_sensors_apart(first: Frame, second: Frame)
    requires
        file_name_text(first.spec_sensor_id(), first.value) == file_name_text(
            second.spec_sensor_id(),
            second.value,
        ),
    ensures
        first.spec_sensor_id() == second.spec_sensor_id(),
{
    reveal_strlit("-");
    reveal_strlit("-x");
    let a = first.spec_sensor_id();
    let b = second.spec_sensor_id();
    let tail_a = value_type_text(a.value_type) + "-x"@ + decimal(stated_components(a)) + ".csv"@;
    let tail_b = value_type_text(b.value_type) + "-x"@ + decimal(stated_components(b)) + ".csv"@;
    let rest_a = sensor_data_tag(first.value) + seq!['-'] + tail_a;
    let rest_b = sensor_data_tag(second.value) + seq!['-'] + tail_b;
    assert(file_name_text(a, first.value) =~= decimal(a.tag as nat) + seq!['-'] + rest_a);
    assert(file_name_text(b, second.value) =~= decimal(b.tag as nat) + seq!['-'] + rest_b);
    lemma_decimal_digits(a.tag as nat);
    lemma_decimal_digits(b.tag as nat);
    lemma_split_at_hyphen(decimal(a.tag as nat), rest_a, decimal(b.tag as nat), rest_b);
    lemma_decimal_injective(a.tag as nat, b.tag as nat);
    lemma_sensor_data_tags(first.value);
    lemma_sensor_data_tags(second.value);
    lemma_split_at_hyphen(
        sensor_data_tag(first.value),
        tail_a,
        sensor_data_tag(second.value),
        tail_b,
    );
}

/// The columns that every row starts with.
pub open spec fn common_header() -> Seq<char> {
    "host_time,device_time,sensor_tag,num_components,value_type"@
}

/// The columns of a payload variant, each with the comma before it.
pub open spec fn variant_header(data: SensorData) -> Seq<char> {
    match data {
        SensorData::SystemClockFrequency(_) => ",freq"@,
        SensorData::AccelerometerI16(_) => ",x,y,z,converted_x,converted_y,converted_z"@,
        SensorData::MagnetometerI16(_) => ",x,y,z,converted_x,converted_y,converted_z"@,
        SensorData::TemperatureI16(_) => ",temp,converted_temp"@,
        SensorData::GyroscopeI16(_) => ",x,y,z,converted_x,converted_y,converted_z"@,
        SensorData::HeadingI16(_) => ",heading,converted_heading"@,
        SensorData::EulerAnglesF32(_) => ",x,y,z,converted_x,converted_y,converted_z"@,
        SensorData::OrientationQuaternionF32(_) => ",a,b,c,d,converted_a,converted_b,converted_c,converted_d"@,
        SensorData::LinearRanges(_) => ",resolution_bits,scale_op,scale,scale_raw,scale_decimals,offset,offset_raw,offset_decimals"@,
        SensorData::Identification(_) => ",code,value"@,
    }
}

/// The header row of the file of a payload variant.
pub open spec fn header_text(data: SensorData) -> Seq<char> {
    common_header() + variant_header(data) + "\n"@
}

/// The columns of a payload variant, each with the comma before it.
fn variant_columns(data: &SensorData) -> (columns: &'static str)
    ensures
        columns@ == variant_header(*data),
{
    match data {
        SensorData::SystemClockFrequency(_) => ",freq",
        SensorData::AccelerometerI16(_) => ",x,y,z,converted_x,converted_y,converted_z",
        SensorData::MagnetometerI16(_) => ",x,y,z,converted_x,converted_y,converted_z",
        SensorData::TemperatureI16(_) => ",temp,converted_temp",
        SensorData::GyroscopeI16(_) => ",x,y,z,converted_x,converted_y,converted_z",
        SensorData::HeadingI16(_) => ",heading,converted_heading",
        SensorData::EulerAnglesF32(_) => ",x,y,z,converted_x,converted_y,converted_z",
        SensorData::OrientationQuaternionF32(_) => ",a,b,c,d,converted_a,converted_b,converted_c,converted_d",
        SensorData::LinearRanges(_) => ",resolution_bits,scale_op,scale,scale_raw,scale_decimals,offset,offset_raw,offset_decimals",
        SensorData::Identification(_) => ",code,value",
    }
}

/// Creates the header row of the file that the frame's rows go to.
pub fn create_header_row(data: &Frame) -> (row: Vec<u8>)
    ensures
        row@ == encode_utf8(header_text(data.value)),
{
    let mut row = "host_time,device_time,sensor_tag,num_components,value_type".to_owned();
    row.append(variant_columns(&data.value));
    row.append("\n");
    row.as_str().as_bytes_vec()
}

/// A raw component of a reading that has a converted column beside it.
#[derive(Debug, Copy, Clone, PartialEq, Eq, Hash, Structural)]
pub enum Reading {
    /// An integer reading.
    Integer(i16),
    /// A single-precision reading, held as its IEEE 754 bit pattern.
    Bits(u32),
}

/// A floating-point column of a data row. The host computes the value in
/// single precision and hands back its text.
#[derive(Debug, Copy, Clone, PartialEq, Eq, Hash, Structural)]
pub enum FloatCell {
    /// The device time in seconds: the sum of `secs`, `millis` over a
    /// thousand and `nanos` over a million, each term only where it is there.
    DeviceTime { secs: Option<u32>, millis: Option<u16>, nanos: Option<u16> },
    /// The value with this IEEE 754 bit pattern.
    Value { bits: u32 },
    /// The reading `raw`, converted by the calibration.
    Calibrated { raw: Reading, calibration: LinearRanges },
    /// `value` with its last `decimals` digits behind the decimal point.
    Scaled { value: i32, decimals: u8 },
}

/// The device time of a frame. A field that holds the largest value of its
/// type is absent and adds nothing.
pub open spec fn device_time(data: Frame) -> FloatCell {
    FloatCell::DeviceTime {
        secs: if data.system_secs == ABSENT_U32 {
            None
        } else {
            Some(data.system_secs)
        },
        millis: if data.system_millis == ABSENT_U16 {
            None
        } else {
            Some(data.system_millis)
        },
        nanos: if data.system_nanos == ABSENT_U16 {
            None
        } else {
            Some(data.system_nanos)
        },
    }
}

/// The terms of the device time of a frame.
pub fn decode_device_time(data: &Frame) -> (time: FloatCell)
    ensures
        time == device_time(*data),
        time is DeviceTime,
        data.system_secs == ABSENT_U32 ==> time->secs is None,
        data.system_millis == ABSENT_U16 ==> time->millis is None,
        data.system_nanos == ABSENT_U16 ==> time->nanos is None,
{
    FloatCell::DeviceTime {
        secs: if data.system_secs == ABSENT_U32 {
            None
        } else {
            Some(data.system_secs)
        },
        millis: if data.system_millis == ABSENT_U16 {
            None
        } else {
            Some(data.system_millis)
        },
        nanos: if data.system_nanos == ABSENT_U16 {
            None
        } else {
            Some(data.system_nanos)
        },
    }
}

/// The raw components of a payload that have a converted column beside
/// them, in the order of their columns. Meta frames and the clock frequency
/// have none.
pub open spec fn readings(data: SensorData) -> Seq<Reading> {
    match data {
        SensorData::AccelerometerI16(v) | SensorData::MagnetometerI16(v) | SensorData::GyroscopeI16(
            v,
        ) => seq![Reading::Integer(v.x), Reading::Integer(v.y), Reading::Integer(v.z)],
        SensorData::TemperatureI16(value) | SensorData::HeadingI16(value) => seq![
            Reading::Integer(value),
        ],
        SensorData::EulerAnglesF32(v) => seq![
            Reading::Bits(v.x),
            Reading::Bits(v.y),
            Reading::Bits(v.z),
        ],
        SensorData::OrientationQuaternionF32(v) => seq![
            Reading::Bits(v.a),
            Reading::Bits(v.b),
            Reading::Bits(v.c),
            Reading::Bits(v.d),
        ],
        _ => Seq::<Reading>::empty(),
    }
}

/// The floating-point columns among the raw columns of a payload.
pub open spec fn raw_cells(data: SensorData) -> Seq<FloatCell> {
    match data {
        SensorData::EulerAnglesF32(v) => seq![
            FloatCell::Value { bits: v.x },
            FloatCell::Value { bits: v.y },
            FloatCell::Value { bits: v.z },
        ],
        SensorData::OrientationQuaternionF32(v) => seq![
            FloatCell::Value { bits: v.a },
            FloatCell::Value { bits: v.b },
            FloatCell::Value { bits: v.c },
            FloatCell::Value { bits: v.d },
        ],
        SensorData::LinearRanges(info) => seq![
            FloatCell::Scaled { value: info.scale, decimals: info.scale_decimals },
            FloatCell::Scaled { value: info.offset, decimals: info.offset_decimals },
        ],
        _ => Seq::<FloatCell>::empty(),
    }
}

/// The converted columns of a payload under a calibration: the conversion
/// of each reading, in their order.
pub open spec fn converted_cells(data: SensorData, calibration: LinearRanges) -> Seq<FloatCell> {
    Seq::new(
        readings(data).len(),
        |i: int| FloatCell::Calibrated { raw: readings(data)[i], calibration },
    )
}

/// The floating-point columns of the data row of a frame, in the order of
/// the row: the device time, those among the raw columns, the converted
/// columns. Without a calibration there are no converted columns to render.
pub open spec fn row_float_cells(data: Frame, ranges: Option<LinearRanges>) -> Seq<FloatCell> {
    seq![device_time(data)] + raw_cells(data.value) + match ranges {
        Some(calibration) => converted_cells(data.value, calibration),
        None => Seq::<FloatCell>::empty(),
    }
}

/// The place of the first converted column among the floating-point columns
/// of a row.
pub open spec fn converted_start(data: SensorData) -> int {
    1 + raw_cells(data).len() as int
}

/// The raw components of a payload that have a converted column beside them.
fn payload_readings(data: &SensorData) -> (list: Vec<Reading>)
    ensures
        list@ == readings(*data),
{
    let mut list: Vec<Reading> = Vec::new();
    match data {
        SensorData::AccelerometerI16(v) | SensorData::MagnetometerI16(v)
        | SensorData::GyroscopeI16(v) => {
            list.push(Reading::Integer(v.x));
            list.push(Reading::Integer(v.y));
            list.push(Reading::Integer(v.z));
        },
        SensorData::TemperatureI16(value) | SensorData::HeadingI16(value) => {
            list.push(Reading::Integer(*value));
        },
        SensorData::EulerAnglesF32(v) => {
            list.push(Reading::Bits(v.x));
            list.push(Reading::Bits(v.y));
            list.push(Reading::Bits(v.z));
        },
        SensorData::OrientationQuaternionF32(v) => {
            list.push(Reading::Bits(v.a));
            list.push(Reading::Bits(v.b));
            list.push(Reading::Bits(v.c));
            list.push(Reading::Bits(v.d));
        },
        _ => {},
    }
    list
}

/// The floating-point columns of the data row of a frame, which the host
/// renders before the row is created.
pub fn float_cells(data: &Frame, ranges: Option<LinearRanges>) -> (cells: Vec<FloatCell>)
    ensures
        cells@ == row_float_cells(*data, ranges),
{
    let mut cells: Vec<FloatCell> = Vec::new();
    cells.push(decode_device_time(data));
    match data.value {
        SensorData::EulerAnglesF32(v) => {
            cells.push(FloatCell::Value { bits: v.x });
            cells.push(FloatCell::Value { bits: v.y });
            cells.push(FloatCell::Value { bits: v.z });
        },
        SensorData::OrientationQuaternionF32(v) => {
            cells.push(FloatCell::Value { bits: v.a });
            cells.push(FloatCell::Value { bits: v.b });
            cells.push(FloatCell::Value { bits: v.c });
            cells.push(FloatCell::Value { bits: v.d });
        },
        SensorData::LinearRanges(info) => {
            cells.push(FloatCell::Scaled { value: info.scale, decimals: info.scale_decimals });
            cells.push(FloatCell::Scaled { value: info.offset, decimals: info.offset_decimals });
        },
        _ => {},
    }
    if let Some(calibration) = ranges {
        let list = payload_readings(&data.value);
        let ghost head = cells@;
        let mut done: usize = 0;
        while done < list.len()
            invariant
                done <= list.len(),
                list@ == readings(data.value),
                cells@ == head + converted_cells(data.value, calibration).subrange(0, done as int),
            decreases list.len() - done,
        {
            cells.push(FloatCell::Calibrated { raw: list[done], calibration });
            done = done + 1;
            assert(cells@ =~= head + converted_cells(data.value, calibration).subrange(
                0,
                done as int,
            ));
        }
        assert(converted_cells(data.value, calibration).subrange(0, done as int)
            =~= converted_cells(data.value, calibration));
    }
    cells
}

/// The texts of a list of strings.
pub open spec fn texts_of(strings: Seq<String>) -> Seq<Seq<char>> {
    strings.map_values(|s: String| s@)
}

/// `count` texts from `start` on, each with a comma before it.
pub open spec fn comma_joined(texts: Seq<Seq<char>>, start: int, count: nat) -> Seq<char>
    decreases count,
{
    if count == 0 {
        Seq::<char>::empty()
    } else {
        comma_joined(texts, start, (count - 1) as nat) + ","@ + texts[start + count - 1]
    }
}

/// The text of a converted column: the rendered conversion where the sensor
/// is calibrated, else nothing.
pub open spec fn converted_column(texts: Seq<Seq<char>>, place: int, calibrated: bool) -> Seq<
    char,
> {
    if calibrated {
        texts[place]
    } else {
        Seq::<char>::empty()
    }
}

/// `count` converted columns, each with the comma before it; `start` is the
/// place of the first among the rendered texts.
pub open spec fn converted_columns(
    texts: Seq<Seq<char>>,
    start: int,
    count: nat,
    calibrated: bool,
) -> Seq<char>
    decreases count,
{
    if count == 0 {
        Seq::<char>::empty()
    } else {
        converted_columns(texts, start, (count - 1) as nat, calibrated) + ","@ + converted_column(
            texts,
            start + count - 1,
            calibrated,
        )
    }
}

/// Appends `count` converted columns to `row`, each with the comma before
/// it: the texts from `start` on where the sensor is calibrated, else empty
/// columns.
fn csv_convert_push(
    row: &mut String,
    floats: &Vec<String>,
    start: usize,
    count: usize,
    calibrated: bool,
)
    requires
        calibrated ==> start + count <= floats.len(),
    ensures
        final(row)@ == old(row)@ + converted_columns(
            texts_of(floats@),
            start as int,
            count as nat,
            calibrated,
        ),
{
    let mut done: usize = 0;
    while done < count
        invariant
            done <= count,
            calibrated ==> start + count <= floats.len(),
            row@ == old(row)@ + converted_columns(
                texts_of(floats@),
                start as int,
                done as nat,
                calibrated,
            ),
        decreases count - done,
    {
        row.append(",");
        if calibrated {
            row.append(floats[start + done].as_str());
        }
        done = done + 1;
        assert(row@ =~= old(row)@ + converted_columns(
            texts_of(floats@),
            start as int,
            done as nat,
            calibrated,
        ));
    }
}

/// Appends the converted column of a scalar reading to `row`.
pub fn csv_convert_push_scalar(
    row: &mut String,
    floats: &Vec<String>,
    start: usize,
    calibrated: bool,
)
    requires
        calibrated ==> start + 1 <= floats.len(),
    ensures
        final(row)@ == old(row)@ + converted_columns(
            texts_of(floats@),
            start as int,
            1,
            calibrated,
        ),
{
    csv_convert_push(row, floats, start, 1, calibrated)
}

/// Appends the three converted columns of a vector reading to `row`.
pub fn csv_convert_push_vec3(
    row: &mut String,
    floats: &Vec<String>,
    start: usize,
    calibrated: bool,
)
    requires
        calibrated ==> start + 3 <= floats.len(),
    ensures
        final(row)@ == old(row)@ + converted_columns(
            texts_of(floats@),
            start as int,
            3,
            calibrated,
        ),
{
    csv_convert_push(row, floats, start, 3, calibrated)
}

/// Appends the four converted columns of a quaternion to `row`.
pub fn csv_convert_push_vec4(
    row: &mut String,
    floats: &Vec<String>,
    start: usize,
    calibrated: bool,
)
    requires
        calibrated ==> start + 4 <= floats.len(),
    ensures
        final(row)@ == old(row)@ + converted_columns(
            texts_of(floats@),
            start as int,
            4,
            calibrated,
        ),
{
    csv_convert_push(row, floats, start, 4, calibrated)
}

/// The three raw columns of an integer vector.
pub open spec fn vector3_text(v: Vector3) -> Seq<char> {
    signed_decimal(v.x as int) + ","@ + signed_decimal(v.y as int) + ","@ + signed_decimal(
        v.z as int,
    )
}

/// The columns of a calibration record. `scale` and `offset` are the
/// rendered values of the record's scale and offset.
pub open spec fn linear_ranges_text(info: LinearRanges, scale: Seq<char>, offset: Seq<char>) -> Seq<
    char,
> {
    decimal(info.resolution_bits as nat) + ","@ + upper_hex2(info.scale_op as nat) + ","@ + scale
        + ","@ + signed_decimal(info.scale as int) + ","@ + decimal(info.scale_decimals as nat)
        + ","@ + offset + ","@ + signed_decimal(info.offset as int) + ","@ + decimal(
        info.offset_decimals as nat,
    )
}

/// The raw columns of a data row. `texts` holds the rendered floating-point
/// columns of the row, the device time first.
pub open spec fn raw_text(data: SensorData, texts: Seq<Seq<char>>) -> Seq<char> {
    match data {
        SensorData::SystemClockFrequency(freq) => decimal(freq as nat),
        SensorData::AccelerometerI16(v) | SensorData::MagnetometerI16(v) | SensorData::GyroscopeI16(
            v,
        ) => vector3_text(v),
        SensorData::TemperatureI16(value) | SensorData::HeadingI16(value) => signed_decimal(
            value as int,
        ),
        SensorData::EulerAnglesF32(_) => texts[1] + comma_joined(texts, 2, 2),
        SensorData::OrientationQuaternionF32(_) => texts[1] + comma_joined(texts, 2, 3),
        SensorData::LinearRanges(info) => linear_ranges_text(info, texts[1], texts[2]),
        SensorData::Identification(ident) => ident_code_text(ident.code) + ","@
            + identification_text(ident.value@),
    }
}

/// The columns of a data row that follow the common ones: the raw columns,
/// then one converted column for each reading.
pub open spec fn variant_text(data: SensorData, calibrated: bool, texts: Seq<Seq<char>>) -> Seq<
    char,
> {
    raw_text(data, texts) + converted_columns(
        texts,
        converted_start(data),
        readings(data).len(),
        calibrated,
    )
}

/// The columns that every data row starts with, each with a comma behind it.
pub open spec fn common_text(host_time: Seq<char>, device_time: Seq<char>, target: SensorId) -> Seq<
    char,
> {
    host_time + ","@ + device_time + ","@ + upper_hex2(target.tag as nat) + ","@ + decimal(
        stated_components(target),
    ) + ","@ + value_type_text(target.value_type) + ","@
}

/// The data row of a frame: the common columns, the columns of the payload
/// variant and a line break.
pub open spec fn data_row_text(
    host_time: Seq<char>,
    target: SensorId,
    data: Frame,
    calibrated: bool,
    texts: Seq<Seq<char>>,
) -> Seq<char> {
    common_text(host_time, texts[0], target) + variant_text(data.value, calibrated, texts) + "\n"@
}

/// The columns of a data row that follow the common ones.
fn variant_columns_text(data: &SensorData, calibrated: bool, floats: &Vec<String>) -> (text: String)
    requires
        floats.len() == converted_start(*data) + (if calibrated {
            readings(*data).len()
        } else {
            0
        }),
    ensures
        text@ == variant_text(*data, calibrated, texts_of(floats@)),
{
    let ghost texts = texts_of(floats@);
    let mut text = String::new();
    match data {
        SensorData::SystemClockFrequency(freq) => {
            push_decimal(&mut text, *freq as u64);
            csv_convert_push(&mut text, floats, 1, 0, calibrated);
        },
        SensorData::AccelerometerI16(v) | SensorData::MagnetometerI16(v)
        | SensorData::GyroscopeI16(v) => {
            push_signed_decimal(&mut text, v.x as i64);
            text.append(",");
            push_signed_decimal(&mut text, v.y as i64);
            text.append(",");
            push_signed_decimal(&mut text, v.z as i64);
            csv_convert_push_vec3(&mut text, floats, 1, calibrated);
        },
        SensorData::TemperatureI16(value) | SensorData::HeadingI16(value) => {
            push_signed_decimal(&mut text, *value as i64);
            csv_convert_push_scalar(&mut text, floats, 1, calibrated);
        },
        SensorData::EulerAnglesF32(_) => {
            text.append(floats[1].as_str());
            push_joined(&mut text, floats, 2, 2);
            csv_convert_push_vec3(&mut text, floats, 4, calibrated);
        },
        SensorData::OrientationQuaternionF32(_) => {
            text.append(floats[1].as_str());
            push_joined(&mut text, floats, 2, 3);
            csv_convert_push_vec4(&mut text, floats, 5, calibrated);
        },
        SensorData::LinearRanges(info) => {
            push_decimal(&mut text, info.resolution_bits as u64);
            text.append(",");
            push_upper_hex2(&mut text, info.scale_op as u64);
            text.append(",");
            text.append(floats[1].as_str());
            text.append(",");
            push_signed_decimal(&mut text, info.scale as i64);
            text.append(",");
            push_decimal(&mut text, info.scale_decimals as u64);
            text.append(",");
            text.append(floats[2].as_str());
            text.append(",");
            push_signed_decimal(&mut text, info.offset as i64);
            text.append(",");
            push_decimal(&mut text, info.offset_decimals as u64);
            csv_convert_push(&mut text, floats, 3, 0, calibrated);
        },
        SensorData::Identification(ident) => {
            text.append(ident_code(ident.code));
            text.append(",");
            let value = identification_string(ident.value.as_slice());
            text.append(value.as_str());
            csv_convert_push(&mut text, floats, 1, 0, calibrated);
        },
    }
    text
}

/// Appends `count` texts from `start` on to `row`, each with a comma before
/// it.
fn push_joined(row: &mut String, floats: &Vec<String>, start: usize, count: usize)
    requires
        start + count <= floats.len(),
    ensures
        final(row)@ == old(row)@ + comma_joined(texts_of(floats@), start as int, count as nat),
{
    let mut done: usize = 0;
    while done < count
        invariant
            done <= count,
            start + count <= floats.len(),
            row@ == old(row)@ + comma_joined(texts_of(floats@), start as int, done as nat),
        decreases count - done,
    {
        row.append(",");
        row.append(floats[start + done].as_str());
        done = done + 1;
    }
}

/// Creates the data row of a frame for the file of `target`.
///
/// `floats` holds the text of each floating-point column of the row, in the
/// order of [`float_cells`], and `ranges` the calibration by which the host
/// converted. Where the number of texts is not the number of those columns,
/// there is no row.
pub fn create_data_row(
    host_time: &str,
    target: &SensorId,
    data: &Frame,
    ranges: Option<LinearRanges>,
    floats: &Vec<String>,
) -> (row: Option<Vec<u8>>)
    ensures
        row is Some <==> floats@.len() == row_float_cells(*data, ranges).len(),
        row matches Some(bytes) ==> bytes@ == encode_utf8(
            data_row_text(host_time@, *target, *data, ranges is Some, texts_of(floats@)),
        ),
{
    let cells = float_cells(data, ranges);
    if floats.len() != cells.len() {
        return None;
    }
    let calibrated = ranges.is_some();
    let mut row = host_time.to_owned();
    row.append(",");
    row.append(floats[0].as_str());
    row.append(",");
    push_upper_hex2(&mut row, target.tag() as u64);
    row.append(",");
    let count: u8 = match target.num_components() {
        Some(count) => count,
        None => 0,
    };
    push_decimal(&mut row, count as u64);
    row.append(",");
    row.append(value_type_code(target.value_type()));
    row.append(",");
    let columns = variant_columns_text(&data.value, calibrated, floats);
    row.append(columns.as_str());
    row.append("\n");
    Some(row.as_str().as_bytes_vec())
}

/// What the dumper knows: which files it has opened, and the latest
/// calibration of each sensor. Sensors stand by their packed IDs.
pub struct DumperView {
    pub writers: Set<u32>,
    pub ranges: Map<u32, LinearRanges>,
}

/// What the host has to write for a frame.
#[derive(Debug, Clone, PartialEq, Eq)]
pub enum DumpAction {
    /// Nothing: there is no row.
    Skip,
    /// Append the row to the open file of `writer`, and flush.
    Append { writer: SensorId, row: Vec<u8> },
    /// Create the file of `writer`, write the header and the row, and flush.
    Create { writer: SensorId, file_name: String, header: Vec<u8>, row: Vec<u8> },
}

/// A [`DumpAction`] by its contents.
pub enum DumpActionView {
    Skip,
    Append { writer: SensorId, row: Seq<u8> },
    Create { writer: SensorId, file_name: Seq<char>, header: Seq<u8>, row: Seq<u8> },
}

impl View for DumpAction {
    type V = DumpActionView;

    open spec fn view(&self) -> DumpActionView {
        match *self {
            DumpAction::Skip => DumpActionView::Skip,
            DumpAction::Append { writer, row } => DumpActionView::Append { writer, row: row@ },
            DumpAction::Create { writer, file_name, header, row } => DumpActionView::Create {
                writer,
                file_name: file_name@,
                header: header@,
                row: row@,
            },
        }
    }
}

/// The calibrations after a frame: a calibration record replaces what was
/// known of its target, any other frame changes nothing.
pub open spec fn ranges_after(ranges: Map<u32, LinearRanges>, data: Frame) -> Map<
    u32,
    LinearRanges,
> {
    match data.value {
        SensorData::LinearRanges(info) => ranges.insert(data.spec_target().spec_key(), info),
        _ => ranges,
    }
}

/// The sensor whose calibration the row of a frame is converted by: the
/// target of a calibration record, else the sensor of the frame.
pub open spec fn calibration_key(data: Frame) -> u32 {
    if data.value is LinearRanges {
        data.spec_target().spec_key()
    } else {
        data.spec_sensor_id().spec_key()
    }
}

/// The calibration by which the row of a frame is converted: the latest one
/// of its sensor, the frame itself included.
pub open spec fn row_calibration(ranges: Map<u32, LinearRanges>, data: Frame) -> Option<
    LinearRanges,
> {
    let after = ranges_after(ranges, data);
    if after.contains_key(calibration_key(data)) {
        Some(after[calibration_key(data)])
    } else {
        None
    }
}

/// Whether the host rendered as many texts as the row of the frame has
/// floating-point columns.
pub open spec fn texts_fit(ranges: Map<u32, LinearRanges>, data: Frame, texts: Seq<Seq<char>>) -> bool {
    texts.len() == row_float_cells(data, row_calibration(ranges, data)).len()
}

/// What is to be written for a frame, and what the dumper knows afterwards.
///
/// The row goes to the file of the frame's own sensor ID, so that meta
/// frames have files of their own. The first row of a file comes with the
/// file's name and header.
pub open spec fn dump_step(
    state: DumperView,
    host_time: Seq<char>,
    data: Frame,
    texts: Seq<Seq<char>>,
) -> (DumperView, DumpActionView) {
    let ranges = ranges_after(state.ranges, data);
    let calibration = row_calibration(state.ranges, data);
    let writer = data.spec_sensor_id();
    let row = encode_utf8(data_row_text(host_time, writer, data, calibration is Some, texts));
    if !texts_fit(state.ranges, data, texts) {
        (DumperView { writers: state.writers, ranges }, DumpActionView::Skip)
    } else if state.writers.contains(writer.spec_key()) {
        (DumperView { writers: state.writers, ranges }, DumpActionView::Append { writer, row })
    } else {
        (
            DumperView { writers: state.writers.insert(writer.spec_key()), ranges },
            DumpActionView::Create {
                writer,
                file_name: file_name_text(writer, data.value),
                header: encode_utf8(header_text(data.value)),
                row,
            },
        )
    }
}

/// Decides what goes into which CSV file.
pub struct Dumper {
    writers: HashSet<u32>,
    ranges: HashMap<u32, LinearRanges>,
}

impl View for Dumper {
    type V = DumperView;

    closed spec fn view(&self) -> DumperView {
        DumperView { writers: self.writers@, ranges: self.ranges@ }
    }
}

impl Dumper {
    /// A dumper that has opened no file and knows no calibration.
    pub fn new() -> (dumper: Dumper)
        ensures
            dumper@.writers == Set::<u32>::empty(),
            dumper@.ranges == Map::<u32, LinearRanges>::empty(),
    {
        Dumper { writers: HashSet::new(), ranges: HashMap::new() }
    }

    /// The latest calibration of a sensor.
    pub fn calibration(&self, id: &SensorId) -> (calibration: Option<LinearRanges>)
        ensures
            calibration == (if self@.ranges.contains_key(id.spec_key()) {
                Some(self@.ranges[id.spec_key()])
            } else {
                None
            }),
    {
        let key = id.key();
        match self.ranges.get(&key) {
            Some(info) => Some(*info),
            None => None,
        }
    }

    /// Whether the file of a sensor has been opened.
    pub fn has_writer(&self, id: &SensorId) -> (open: bool)
        ensures
            open == self@.writers.contains(id.spec_key()),
    {
        let key = id.key();
        self.writers.contains(&key)
    }

    /// The calibration by which the row of a frame will be converted.
    pub fn calibration_for(&self, data: &Frame) -> (calibration: Option<LinearRanges>)
        ensures
            calibration == row_calibration(self@.ranges, *data),
    {
        match data.value {
            SensorData::LinearRanges(info) => Some(info),
            _ => self.calibration(&data.sensor_id()),
        }
    }

    /// The floating-point columns of the row of a frame, for the host to
    /// render before it hands the frame to [`Dumper::dump_data`].
    pub fn float_cells(&self, data: &Frame) -> (cells: Vec<FloatCell>)
        ensures
            cells@ == row_float_cells(*data, row_calibration(self@.ranges, *data)),
    {
        float_cells(data, self.calibration_for(data))
    }

    /// Takes one frame: remembers a calibration record, creates the row of
    /// the frame, and says where the row goes.
    pub fn dump_data(&mut self, host_time: &str, data: &Frame, floats: &Vec<String>) -> (action:
        DumpAction)
        ensures
            (final(self)@, action@) == dump_step(
                old(self)@,
                host_time@,
                *data,
                texts_of(floats@),
            ),
    {
        let writer = data.sensor_id();
        let calibration = self.calibration_for(data);
        if let SensorData::LinearRanges(info) = data.value {
            let key = data.target().key();
            self.ranges.insert(key, info);
        }
        let row = match create_data_row(host_time, &writer, data, calibration, floats) {
            Some(row) => row,
            None => {
                return DumpAction::Skip;
            },
        };
        if self.has_writer(&writer) {
            DumpAction::Append { writer, row }
        } else {
            let key = writer.key();
            self.writers.insert(key);
            DumpAction::Create {
                writer,
                file_name: file_name(&writer, &data.value),
                header: create_header_row(data),
                row,
            }
        }
    }
}

/// One frame as the dumper takes it: the frame with the rendered host time
/// and floating-point columns.
pub struct DumpInput {
    pub host_time: Seq<char>,
    pub data: Frame,
    pub texts: Seq<Seq<char>>,
}

/// What the dumper knows after a run of frames, and what was to be written
/// for each of them.
pub open spec fn dump_all(state: DumperView, inputs: Seq<DumpInput>) -> (
    DumperView,
    Seq<DumpActionView>,
)
    decreases inputs.len(),
{
    if inputs.len() == 0 {
        (state, Seq::<DumpActionView>::empty())
    } else {
        let (before, actions) = dump_all(state, inputs.drop_last());
        let input = inputs.last();
        let (after, action) = dump_step(before, input.host_time, input.data, input.texts);
        (after, actions.push(action))
    }
}

/// Whether the host rendered for every frame of a run the floating-point
/// columns that its row had at its time.
pub open spec fn all_fit(state: DumperView, inputs: Seq<DumpInput>) -> bool
    decreases inputs.len(),
{
    inputs.len() == 0 || {
        &&& all_fit(state, inputs.drop_last())
        &&& texts_fit(
            dump_all(state, inputs.drop_last()).0.ranges,
            inputs.last().data,
            inputs.last().texts,
        )
    }
}

/// Whether an action writes a row to the file of the sensor with this key.
pub open spec fn writes_row(action: DumpActionView, key: u32) -> bool {
    match action {
        DumpActionView::Skip => false,
        DumpActionView::Append { writer, .. } => writer.spec_key() == key,
        DumpActionView::Create { writer, .. } => writer.spec_key() == key,
    }
}

/// The number of rows that a run of actions writes to the file of a sensor.
pub open spec fn rows_written(actions: Seq<DumpActionView>, key: u32) -> nat
    decreases actions.len(),
{
    if actions.len() == 0 {
        0
    } else {
        rows_written(actions.drop_last(), key) + if writes_row(actions.last(), key) {
            1nat
        } else {
            0nat
        }
    }
}

/// The number of headers that a run of actions writes to the file of a
/// sensor.
pub open spec fn headers_written(actions: Seq<DumpActionView>, key: u32) -> nat
    decreases actions.len(),
{
    if actions.len() == 0 {
        0
    } else {
        headers_written(actions.drop_last(), key) + if actions.last() matches DumpActionView::Create {
            writer,
            ..
        } && writer.spec_key() == key {
            1nat
        } else {
            0nat
        }
    }
}

/// The number of frames in a run that travel under the sensor ID with this
/// key.
pub open spec fn frames_of(inputs: Seq<DumpInput>, key: u32) -> nat
    decreases inputs.len(),
{
    if inputs.len() == 0 {
        0
    } else {
        frames_of(inputs.drop_last(), key) + if inputs.last().data.spec_sensor_id().spec_key()
            == key {
            1nat
        } else {
            0nat
        }
    }
}

/// Meta frames travel under sensor IDs of their own, so the file of a data
/// sensor holds rows of data frames only.
pub proof fn lemma_meta_frames_have_own_files(data: Frame)
    ensures
        data.spec_is_meta() <==> (data.spec_sensor_id().sensor_type_id
            == crate::frame::TYPE_LINEAR_RANGES || data.spec_sensor_id().sensor_type_id
            == crate::frame::TYPE_IDENTIFICATION),
{
}

/// A frame of the board is dumped like any other: it has a row, which goes
/// to a file under tag 0.
pub proof fn lemma_board_frames_are_dumped(
    state: DumperView,
    host_time: Seq<char>,
    data: Frame,
    texts: Seq<Seq<char>>,
)
    requires
        data.sensor_tag == 0,
        texts_fit(state.ranges, data, texts),
    ensures
        writes_row(dump_step(state, host_time, data, texts).1, data.spec_sensor_id().spec_key()),
        data.spec_sensor_id().tag == 0,
        dump_step(state, host_time, data, texts).0.writers.contains(
            data.spec_sensor_id().spec_key(),
        ),
{
}

/// After a run in which the host rendered every row, the file of each
/// sensor ID holds one row for every frame that travelled under that ID, and
/// a frame of another ID adds nothing to it.
pub proof fn lemma_one_row_per_frame(state: DumperView, inputs: Seq<DumpInput>, id: SensorId)
    requires
        all_fit(state, inputs),
    ensures
        rows_written(dump_all(state, inputs).1, id.spec_key()) == frames_of(inputs, id.spec_key()),
    decreases inputs.len(),
{
    if inputs.len() > 0 {
        lemma_one_row_per_frame(state, inputs.drop_last(), id);
        let actions = dump_all(state, inputs).1;
        assert(actions.drop_last() =~= dump_all(state, inputs.drop_last()).1);
    }
}

/// The file of a sensor gets its header with its first row and never again:
/// a run writes one header to each file that it opens, and none to a file
/// that was open before.
pub proof fn lemma_header_on_first_row(state: DumperView, inputs: Seq<DumpInput>, id: SensorId)
    ensures
        dump_all(state, inputs).0.writers.contains(id.spec_key()) <==> (state.writers.contains(
            id.spec_key(),
        ) || rows_written(dump_all(state, inputs).1, id.spec_key()) > 0),
        headers_written(dump_all(state, inputs).1, id.spec_key()) == (if !state.writers.contains(
            id.spec_key(),
        ) && rows_written(dump_all(state, inputs).1, id.spec_key()) > 0 {
            1nat
        } else {
            0nat
        }),
    decreases inputs.len(),
{
    if inputs.len() > 0 {
        lemma_header_on_first_row(state, inputs.drop_last(), id);
        let actions = dump_all(state, inputs).1;
        assert(actions.drop_last() =~= dump_all(state, inputs.drop_last()).1);
    }
}

/// What is written for the frame at place `at` of a run goes to the file
/// of that frame's sensor ID, and a file that is created for it has the name
/// of that ID and of the frame's payload.
pub proof fn lemma_action_of_a_frame(state: DumperView, inputs: Seq<DumpInput>, at: int)
    requires
        0 <= at < inputs.len(),
    ensures
        dump_all(state, inputs).1.len() == inputs.len(),
        ({
            let action = dump_all(state, inputs).1[at];
            let writer = inputs[at].data.spec_sensor_id();
            &&& action matches DumpActionView::Append { writer: to, .. } ==> to == writer
            &&& action matches DumpActionView::Create { writer: to, file_name, .. } ==> to == writer
                && file_name == file_name_text(writer, inputs[at].data.value)
            &&& !(action is Skip) ==> rows_written(dump_all(state, inputs).1, writer.spec_key())
                > 0
        }),
    decreases inputs.len(),
{
    let actions = dump_all(state, inputs).1;
    let earlier = inputs.drop_last();
    assert(actions.drop_last() =~= dump_all(state, earlier).1);
    if earlier.len() > 0 {
        lemma_action_of_a_frame(state, earlier, 0);
    }
    if at < inputs.len() - 1 {
        lemma_action_of_a_frame(state, earlier, at);
    }
}

/// No file is created twice: of the files that a run creates, no two have
/// the same name.
pub proof fn lemma_files_are_created_once(
    state: DumperView,
    inputs: Seq<DumpInput>,
    first: int,
    second: int,
)
    requires
        0 <= first < second < inputs.len(),
        dump_all(state, inputs).1[first] is Create,
        dump_all(state, inputs).1[second] is Create,
    ensures
        dump_all(state, inputs).1[first]->file_name != dump_all(state, inputs).1[second]->file_name,
    decreases inputs.len(),
{
    let earlier = inputs.drop_last();
    lemma_action_of_a_frame(state, inputs, second);
    if second < inputs.len() - 1 {
        lemma_action_of_a_frame(state, earlier, first);
        lemma_action_of_a_frame(state, earlier, second);
        lemma_files_are_created_once(state, earlier, first, second);
    } else {
        let one = inputs[first].data;
        let other = inputs[second].data;
        lemma_action_of_a_frame(state, earlier, first);
        lemma_header_on_first_row(state, earlier, one.spec_sensor_id());
        if file_name_text(one.spec_sensor_id(), one.value) == file_name_text(
            other.spec_sensor_id(),
            other.value,
        ) {
            lemma_file_names_tell_sensors_apart(one, other);
        }
    }
}

/// The latest calibration record of a sensor is the one in force: of two
/// records for the same sensor, the rows that follow are converted by the
/// second.
pub proof fn lemma_last_calibration_wins(
    ranges: Map<u32, LinearRanges>,
    first: Frame,
    second: Frame,
    data: Frame,
)
    requires
        first.value is LinearRanges,
        second.value is LinearRanges,
        first.spec_target() == second.spec_target(),
        !data.spec_is_meta(),
        data.spec_sensor_id() == second.spec_target(),
    ensures
        row_calibration(ranges_after(ranges_after(ranges, first), second), data) == Some(
            second.value->LinearRanges_0,
        ),
        row_calibration(ranges_after(ranges, first), second) == Some(second.value->LinearRanges_0),
{
}

/// The calibration of a sensor is its own: a frame that is no calibration
/// record for that sensor leaves the calibration of the sensor as it was.
pub proof fn lemma_calibration_is_per_sensor(
    ranges: Map<u32, LinearRanges>,
    data: Frame,
    id: SensorId,
)
    requires
        data.value is LinearRanges ==> data.spec_target() != id,
    ensures
        ranges_after(ranges, data).contains_key(id.spec_key()) == ranges.contains_key(
            id.spec_key(),
        ),
        ranges_after(ranges, data)[id.spec_key()] == ranges[id.spec_key()],
{
    if data.value is LinearRanges && data.spec_target().spec_key() == id.spec_key() {
        crate::frame::lemma_key_injective(data.spec_target(), id);
    }
}

/// Each converted column of a data row belongs to the reading of its place:
/// where the sensor is calibrated, the column holds the text that the host
/// rendered for the conversion of that reading by the calibration of the
/// row; where it is not, the column is empty and nothing is rendered for it.
pub proof fn lemma_converted_columns(
    data: Frame,
    ranges: Option<LinearRanges>,
    texts: Seq<Seq<char>>,
    i: int,
)
    requires
        0 <= i < readings(data.value).len(),
    ensures
        ranges matches Some(calibration) ==> {
            &&& converted_start(data.value) + i < row_float_cells(data, ranges).len()
            &&& row_float_cells(data, ranges)[converted_start(data.value) + i]
                == (FloatCell::Calibrated { raw: readings(data.value)[i], calibration })
            &&& converted_column(texts, converted_start(data.value) + i, true)
                == texts[converted_start(data.value) + i]
        },
        ranges is None ==> {
            &&& row_float_cells(data, ranges).len() == converted_start(data.value)
            &&& converted_column(texts, converted_start(data.value) + i, false) == Seq::<
                char,
            >::empty()
        },
{
}

/// How the raw bytes of the line are written to their file.
#[derive(Debug, Copy, Clone, PartialEq, Eq, Hash, Structural)]
pub enum RawFormat {
    /// As they are.
    Plain,
    /// Compressed with gzip.
    Gzip,
}

/// What `std::path::Path::extension` returns for a path with this text.
pub uninterp spec fn path_extension(path: Seq<char>) -> Option<Seq<char>>;

/// `std::path::Path::extension` of the path with this text, as text.
#[verifier::external_body]
fn extension(path: &str) -> (found: Option<String>)
    ensures
        (match found {
            Some(text) => Some(text@),
            None => None,
        }) == path_extension(path@),
{
    match std::path::Path::new(path).extension() {
        Some(found) => Some(found.to_string_lossy().into_owned()),
        None => None,
    }
}

/// The format of a raw file by the extension of its name: gzip for `gz`,
/// plain for every other extension and for none.
pub open spec fn format_of_extension(extension: Option<Seq<char>>) -> RawFormat {
    if extension == Some("gz"@) {
        RawFormat::Gzip
    } else {
        RawFormat::Plain
    }
}

/// The format of a raw file by the extension of its name.
pub fn raw_format(extension: Option<&str>) -> (format: RawFormat)
    ensures
        format == format_of_extension(
            match extension {
                Some(text) => Some(text@),
                None => None,
            },
        ),
{
    proof {
        reveal_strlit("gz");
    }
    match extension {
        Some(text) => {
            if text.unicode_len() == 2 && text.get_char(0) == 'g' && text.get_char(1) == 'z' {
                assert(text@ =~= "gz"@);
                RawFormat::Gzip
            } else {
                RawFormat::Plain
            }
        },
        None => RawFormat::Plain,
    }
}

/// The format in which the raw bytes are written to the file at `path`.
pub fn raw_file_format(path: &str) -> (format: RawFormat)
    ensures
        format == format_of_extension(path_extension(path@)),
{
    match extension(path) {
        Some(found) => raw_format(Some(found.as_str())),
        None => raw_format(None),
    }
}

} // verus!
