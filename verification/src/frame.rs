//! The decoded telemetry unit and what identifies the sensor it comes from.

use vstd::prelude::*;

verus! {

/// How the components of a reading are encoded.
#[derive(Debug, Copy, Clone, PartialEq, Eq, Hash, Structural)]
pub enum ValueType {
    UInt8,
    SInt8,
    UInt16,
    SInt16,
    UInt32,
    SInt32,
    UInt64,
    SInt64,
    UInt128,
    SInt128,
    Float32,
    Float64,
    Q8_8,
    Q16_16,
    Q32_32,
    LinearRange,
    Identifier,
}

impl ValueType {
    /// The byte that stands for this value type on the wire.
    pub open spec fn spec_code(self) -> u8 {
        match self {
            ValueType::UInt8 => 0x01,
            ValueType::SInt8 => 0x02,
            ValueType::UInt16 => 0x03,
            ValueType::SInt16 => 0x04,
            ValueType::UInt32 => 0x05,
            ValueType::SInt32 => 0x06,
            ValueType::UInt64 => 0x07,
            ValueType::SInt64 => 0x08,
            ValueType::UInt128 => 0x09,
            ValueType::SInt128 => 0x0A,
            ValueType::Float32 => 0x0B,
            ValueType::Float64 => 0x0C,
            ValueType::Q8_8 => 0x0D,
            ValueType::Q16_16 => 0x0E,
            ValueType::Q32_32 => 0x0F,
            ValueType::LinearRange => 0xFE,
            ValueType::Identifier => 0xFF,
        }
    }

    /// The value type that a wire byte stands for, if any.
    pub open spec fn spec_from_code(code: u8) -> Option<ValueType> {
        if code == 0x01 {
            Some(ValueType::UInt8)
        } else if code == 0x02 {
            Some(ValueType::SInt8)
        } else if code == 0x03 {
            Some(ValueType::UInt16)
        } else if code == 0x04 {
            Some(ValueType::SInt16)
        } else if code == 0x05 {
            Some(ValueType::UInt32)
        } else if code == 0x06 {
            Some(ValueType::SInt32)
        } else if code == 0x07 {
            Some(ValueType::UInt64)
        } else if code == 0x08 {
            Some(ValueType::SInt64)
        } else if code == 0x09 {
            Some(ValueType::UInt128)
        } else if code == 0x0A {
            Some(ValueType::SInt128)
        } else if code == 0x0B {
            Some(ValueType::Float32)
        } else if code == 0x0C {
            Some(ValueType::Float64)
        } else if code == 0x0D {
            Some(ValueType::Q8_8)
        } else if code == 0x0E {
            Some(ValueType::Q16_16)
        } else if code == 0x0F {
            Some(ValueType::Q32_32)
        } else if code == 0xFE {
            Some(ValueType::LinearRange)
        } else if code == 0xFF {
            Some(ValueType::Identifier)
        } else {
            None
        }
    }

    #[verifier::when_used_as_spec(spec_code)]
    pub fn code(self) -> (code: u8)
        ensures
            code == self.spec_code(),
            ValueType::spec_from_code(code) == Some(self),
    {
        match self {
            ValueType::UInt8 => 0x01,
            ValueType::SInt8 => 0x02,
            ValueType::UInt16 => 0x03,
            ValueType::SInt16 => 0x04,
            ValueType::UInt32 => 0x05,
            ValueType::SInt32 => 0x06,
            ValueType::UInt64 => 0x07,
            ValueType::SInt64 => 0x08,
            ValueType::UInt128 => 0x09,
            ValueType::SInt128 => 0x0A,
            ValueType::Float32 => 0x0B,
            ValueType::Float64 => 0x0C,
            ValueType::Q8_8 => 0x0D,
            ValueType::Q16_16 => 0x0E,
            ValueType::Q32_32 => 0x0F,
            ValueType::LinearRange => 0xFE,
            ValueType::Identifier => 0xFF,
        }
    }

    #[verifier::when_used_as_spec(spec_from_code)]
    pub fn from_code(code: u8) -> (value_type: Option<ValueType>)
        ensures
            value_type == ValueType::spec_from_code(code),
            value_type matches Some(v) ==> v.spec_code() == code,
    {
        match code {
            0x01 => Some(ValueType::UInt8),
            0x02 => Some(ValueType::SInt8),
            0x03 => Some(ValueType::UInt16),
            0x04 => Some(ValueType::SInt16),
            0x05 => Some(ValueType::UInt32),
            0x06 => Some(ValueType::SInt32),
            0x07 => Some(ValueType::UInt64),
            0x08 => Some(ValueType::SInt64),
            0x09 => Some(ValueType::UInt128),
            0x0A => Some(ValueType::SInt128),
            0x0B => Some(ValueType::Float32),
            0x0C => Some(ValueType::Float64),
            0x0D => Some(ValueType::Q8_8),
            0x0E => Some(ValueType::Q16_16),
            0x0F => Some(ValueType::Q32_32),
            0xFE => Some(ValueType::LinearRange),
            0xFF => Some(ValueType::Identifier),
            _ => None,
        }
    }
}

/// What an identification record names.
#[derive(Debug, Copy, Clone, PartialEq, Eq, Hash, Structural)]
pub enum IdentifierCode {
    Generic,
    Maker,
    Product,
    Revision,
}

/// Sensor type of the system clock frequency.
pub const TYPE_SYSTEM_CLOCK_FREQUENCY: u8 = 0x02;

/// Sensor type of an accelerometer.
pub const TYPE_ACCELEROMETER: u8 = 0x42;

/// Sensor type of a magnetometer.
pub const TYPE_MAGNETOMETER: u8 = 0x43;

/// Sensor type of a thermometer.
pub const TYPE_TEMPERATURE: u8 = 0x44;

/// Sensor type of a gyroscope.
pub const TYPE_GYROSCOPE: u8 = 0x45;

/// Sensor type of a compass heading.
pub const TYPE_HEADING: u8 = 0x46;

/// Sensor type of Euler angles.
pub const TYPE_EULER_ANGLES: u8 = 0xF0;

/// Sensor type of an orientation quaternion.
pub const TYPE_ORIENTATION_QUATERNION: u8 = 0xF1;

/// Sensor type of a calibration record.
pub const TYPE_LINEAR_RANGES: u8 = 0xFE;

/// Sensor type of an identification record.
pub const TYPE_IDENTIFICATION: u8 = 0xFF;

/// The number of bytes in an identification value.
pub const IDENTIFICATION_LEN: usize = 64;

/// Identifies one logical channel of one physical sensor at one encoding.
/// Tag 0 denotes the board itself.
#[derive(Debug, Copy, Clone, PartialEq, Eq, Hash, Structural)]
pub struct SensorId {
    pub tag: u16,
    pub sensor_type_id: u8,
    pub value_type: ValueType,
}

/// The number of components in a reading of the given sensor type and
/// encoding; `None` where the pair describes no data reading.
pub open spec fn component_count(sensor_type_id: u8, value_type: ValueType) -> Option<u8> {
    if sensor_type_id == TYPE_SYSTEM_CLOCK_FREQUENCY && value_type == ValueType::UInt32 {
        Some(1u8)
    } else if sensor_type_id == TYPE_ACCELEROMETER && value_type == ValueType::SInt16 {
        Some(3u8)
    } else if sensor_type_id == TYPE_MAGNETOMETER && value_type == ValueType::SInt16 {
        Some(3u8)
    } else if sensor_type_id == TYPE_TEMPERATURE && value_type == ValueType::SInt16 {
        Some(1u8)
    } else if sensor_type_id == TYPE_GYROSCOPE && value_type == ValueType::SInt16 {
        Some(3u8)
    } else if sensor_type_id == TYPE_HEADING && value_type == ValueType::SInt16 {
        Some(1u8)
    } else if sensor_type_id == TYPE_EULER_ANGLES && value_type == ValueType::Float32 {
        Some(3u8)
    } else if sensor_type_id == TYPE_ORIENTATION_QUATERNION && value_type == ValueType::Float32 {
        Some(4u8)
    } else {
        None
    }
}

impl SensorId {
    /// Constructs a sensor ID from its three parts.
    pub fn new_with(sensor_tag: u16, sensor_type_id: u8, value_type: ValueType) -> (id: SensorId)
        ensures
            id == (SensorId { tag: sensor_tag, sensor_type_id, value_type }),
    {
        SensorId { tag: sensor_tag, sensor_type_id, value_type }
    }

    pub open spec fn spec_tag(&self) -> u16 {
        self.tag
    }

    /// Returns the sensor tag.
    #[verifier::when_used_as_spec(spec_tag)]
    pub fn tag(&self) -> (tag: u16)
        ensures
            tag == self.tag,
    {
        self.tag
    }

    pub open spec fn spec_id(&self) -> u8 {
        self.sensor_type_id
    }

    /// Returns the sensor type.
    #[verifier::when_used_as_spec(spec_id)]
    pub fn id(&self) -> (id: u8)
        ensures
            id == self.sensor_type_id,
    {
        self.sensor_type_id
    }

    pub open spec fn spec_value_type(&self) -> ValueType {
        self.value_type
    }

    /// Returns the sensor's value type.
    #[verifier::when_used_as_spec(spec_value_type)]
    pub fn value_type(&self) -> (value_type: ValueType)
        ensures
            value_type == self.value_type,
    {
        self.value_type
    }

    pub open spec fn spec_num_components(&self) -> Option<u8> {
        component_count(self.sensor_type_id, self.value_type)
    }

    /// Returns the number of components of a reading of this sensor, or `None`
    /// where the sensor type and encoding describe no data reading.
    #[verifier::when_used_as_spec(spec_num_components)]
    pub fn num_components(&self) -> (count: Option<u8>)
        ensures
            count == component_count(self.sensor_type_id, self.value_type),
    {
        let id = self.sensor_type_id;
        match self.value_type {
            ValueType::UInt32 => if id == TYPE_SYSTEM_CLOCK_FREQUENCY {
                Some(1)
            } else {
                None
            },
            ValueType::SInt16 => if id == TYPE_ACCELEROMETER || id == TYPE_MAGNETOMETER || id
                == TYPE_GYROSCOPE {
                Some(3)
            } else if id == TYPE_TEMPERATURE || id == TYPE_HEADING {
                Some(1)
            } else {
                None
            },
            ValueType::Float32 => if id == TYPE_EULER_ANGLES {
                Some(3)
            } else if id == TYPE_ORIENTATION_QUATERNION {
                Some(4)
            } else {
                None
            },
            _ => None,
        }
    }

    /// The three parts packed into one integer: the tag above the sensor
    /// type above the value type's wire byte.
    pub open spec fn spec_key(&self) -> u32 {
        (self.tag as u32 * 0x1_0000 + self.sensor_type_id as u32 * 0x100
            + self.value_type.spec_code() as u32) as u32
    }

    /// Packs the ID into one integer. Different IDs give different integers.
    #[verifier::when_used_as_spec(spec_key)]
    pub fn key(&self) -> (key: u32)
        ensures
            key == self.spec_key(),
            SensorId::spec_from_key(key) == Some(*self),
    {
        let code = self.value_type.code();
        self.tag as u32 * 0x1_0000 + self.sensor_type_id as u32 * 0x100 + code as u32
    }

    /// The ID that an integer is the packed form of, if any.
    pub open spec fn spec_from_key(key: u32) -> Option<SensorId> {
        match ValueType::spec_from_code((key % 0x100) as u8) {
            Some(value_type) => Some(
                SensorId {
                    tag: (key / 0x1_0000) as u16,
                    sensor_type_id: ((key / 0x100) % 0x100) as u8,
                    value_type,
                },
            ),
            None => None,
        }
    }

    /// Unpacks an integer into the ID it stands for.
    #[verifier::when_used_as_spec(spec_from_key)]
    pub fn from_key(key: u32) -> (id: Option<SensorId>)
        ensures
            id == SensorId::spec_from_key(key),
            id matches Some(found) ==> found.spec_key() == key,
    {
        match ValueType::from_code((key % 0x100) as u8) {
            Some(value_type) => Some(
                SensorId {
                    tag: (key / 0x1_0000) as u16,
                    sensor_type_id: ((key / 0x100) % 0x100) as u8,
                    value_type,
                },
            ),
            None => None,
        }
    }
}

/// Unpacking the packed form of an ID gives the ID back.
pub proof fn lemma_key_round_trip(id: SensorId)
    ensures
        SensorId::spec_from_key(id.spec_key()) == Some(id),
{
}

/// Packing is one to one: equal keys come from equal IDs only.
pub proof fn lemma_key_injective(a: SensorId, b: SensorId)
    requires
        a.spec_key() == b.spec_key(),
    ensures
        a == b,
{
}

/// Three signed 16-bit components.
#[derive(Debug, Copy, Clone, PartialEq, Eq, Hash, Structural)]
pub struct Vector3 {
    pub x: i16,
    pub y: i16,
    pub z: i16,
}

/// Three single-precision components, each held as its IEEE 754 bit pattern.
#[derive(Debug, Copy, Clone, PartialEq, Eq, Hash, Structural)]
pub struct VectorBits3 {
    pub x: u32,
    pub y: u32,
    pub z: u32,
}

/// Four single-precision components, each held as its IEEE 754 bit pattern.
#[derive(Debug, Copy, Clone, PartialEq, Eq, Hash, Structural)]
pub struct VectorBits4 {
    pub a: u32,
    pub b: u32,
    pub c: u32,
    pub d: u32,
}

/// A calibration record: how raw readings of the target sensor map to
/// physical units, the same way on every axis.
#[derive(Debug, Copy, Clone, PartialEq, Eq, Hash, Structural)]
pub struct LinearRanges {
    /// The sensor that this record calibrates.
    pub target: SensorId,
    /// Number of significant bits per axis.
    pub resolution_bits: u16,
    /// The kind of scale operation.
    pub scale_op: u8,
    /// The amount by which to scale, before its decimals are applied.
    pub scale: i32,
    /// The number of decimal places in `scale`.
    pub scale_decimals: u8,
    /// The amount by which to offset, before its decimals are applied.
    pub offset: i32,
    /// The number of decimal places in `offset`.
    pub offset_decimals: u8,
}

/// An identification record: one name of the target sensor.
#[derive(Debug, Copy, Clone, PartialEq, Eq, Hash)]
pub struct Identification {
    /// The sensor that this record names.
    pub target: SensorId,
    /// Which name this is.
    pub code: IdentifierCode,
    /// The name as UTF-8, padded to the full length.
    pub value: [u8; 64],
}

/// The payload of a frame.
#[derive(Debug, Copy, Clone, PartialEq, Eq, Hash)]
pub enum SensorData {
    /// The system clock frequency in Hertz.
    SystemClockFrequency(u32),
    /// The gravity vector.
    AccelerometerI16(Vector3),
    /// The magnetic field strength.
    MagnetometerI16(Vector3),
    /// A temperature.
    TemperatureI16(i16),
    /// The angular rate.
    GyroscopeI16(Vector3),
    /// The heading towards magnetic north.
    HeadingI16(i16),
    /// Euler angles.
    EulerAnglesF32(VectorBits3),
    /// An orientation quaternion.
    OrientationQuaternionF32(VectorBits4),
    /// Calibration of a sensor.
    LinearRanges(LinearRanges),
    /// A name of a sensor.
    Identification(Identification),
}

impl SensorData {
    pub open spec fn spec_sensor_type_id(&self) -> u8 {
        match self {
            SensorData::SystemClockFrequency(_) => TYPE_SYSTEM_CLOCK_FREQUENCY,
            SensorData::AccelerometerI16(_) => TYPE_ACCELEROMETER,
            SensorData::MagnetometerI16(_) => TYPE_MAGNETOMETER,
            SensorData::TemperatureI16(_) => TYPE_TEMPERATURE,
            SensorData::GyroscopeI16(_) => TYPE_GYROSCOPE,
            SensorData::HeadingI16(_) => TYPE_HEADING,
            SensorData::EulerAnglesF32(_) => TYPE_EULER_ANGLES,
            SensorData::OrientationQuaternionF32(_) => TYPE_ORIENTATION_QUATERNION,
            SensorData::LinearRanges(_) => TYPE_LINEAR_RANGES,
            SensorData::Identification(_) => TYPE_IDENTIFICATION,
        }
    }

    /// The sensor type that this payload belongs to.
    #[verifier::when_used_as_spec(spec_sensor_type_id)]
    pub fn sensor_type_id(&self) -> (id: u8)
        ensures
            id == self.spec_sensor_type_id(),
    {
        match self {
            SensorData::SystemClockFrequency(_) => TYPE_SYSTEM_CLOCK_FREQUENCY,
            SensorData::AccelerometerI16(_) => TYPE_ACCELEROMETER,
            SensorData::MagnetometerI16(_) => TYPE_MAGNETOMETER,
            SensorData::TemperatureI16(_) => TYPE_TEMPERATURE,
            SensorData::GyroscopeI16(_) => TYPE_GYROSCOPE,
            SensorData::HeadingI16(_) => TYPE_HEADING,
            SensorData::EulerAnglesF32(_) => TYPE_EULER_ANGLES,
            SensorData::OrientationQuaternionF32(_) => TYPE_ORIENTATION_QUATERNION,
            SensorData::LinearRanges(_) => TYPE_LINEAR_RANGES,
            SensorData::Identification(_) => TYPE_IDENTIFICATION,
        }
    }

    pub open spec fn spec_value_type(&self) -> ValueType {
        match self {
            SensorData::SystemClockFrequency(_) => ValueType::UInt32,
            SensorData::AccelerometerI16(_) => ValueType::SInt16,
            SensorData::MagnetometerI16(_) => ValueType::SInt16,
            SensorData::TemperatureI16(_) => ValueType::SInt16,
            SensorData::GyroscopeI16(_) => ValueType::SInt16,
            SensorData::HeadingI16(_) => ValueType::SInt16,
            SensorData::EulerAnglesF32(_) => ValueType::Float32,
            SensorData::OrientationQuaternionF32(_) => ValueType::Float32,
            SensorData::LinearRanges(_) => ValueType::LinearRange,
            SensorData::Identification(_) => ValueType::Identifier,
        }
    }

    /// How the components of this payload are encoded.
    #[verifier::when_used_as_spec(spec_value_type)]
    pub fn value_type(&self) -> (value_type: ValueType)
        ensures
            value_type == self.spec_value_type(),
    {
        match self {
            SensorData::SystemClockFrequency(_) => ValueType::UInt32,
            SensorData::AccelerometerI16(_) => ValueType::SInt16,
            SensorData::MagnetometerI16(_) => ValueType::SInt16,
            SensorData::TemperatureI16(_) => ValueType::SInt16,
            SensorData::GyroscopeI16(_) => ValueType::SInt16,
            SensorData::HeadingI16(_) => ValueType::SInt16,
            SensorData::EulerAnglesF32(_) => ValueType::Float32,
            SensorData::OrientationQuaternionF32(_) => ValueType::Float32,
            SensorData::LinearRanges(_) => ValueType::LinearRange,
            SensorData::Identification(_) => ValueType::Identifier,
        }
    }

    pub open spec fn spec_is_meta(&self) -> bool {
        self is LinearRanges || self is Identification
    }

    /// Whether the payload describes a sensor instead of carrying a reading.
    #[verifier::when_used_as_spec(spec_is_meta)]
    pub fn is_meta(&self) -> (meta: bool)
        ensures
            meta == self.spec_is_meta(),
    {
        match self {
            SensorData::LinearRanges(_) => true,
            SensorData::Identification(_) => true,
            _ => false,
        }
    }

    pub open spec fn spec_meta_target(&self) -> Option<SensorId> {
        match self {
            SensorData::LinearRanges(info) => Some(info.target),
            SensorData::Identification(ident) => Some(ident.target),
            _ => None,
        }
    }

    /// The sensor that a meta payload describes.
    #[verifier::when_used_as_spec(spec_meta_target)]
    pub fn meta_target(&self) -> (target: Option<SensorId>)
        ensures
            target == self.spec_meta_target(),
            target is Some <==> self.spec_is_meta(),
    {
        match self {
            SensorData::LinearRanges(info) => Some(info.target),
            SensorData::Identification(ident) => Some(ident.target),
            _ => None,
        }
    }
}

/// The absent value of `system_secs` and of the two sequence counters.
pub const ABSENT_U32: u32 = 0xFFFF_FFFF;

/// The absent value of `system_millis` and `system_nanos`.
pub const ABSENT_U16: u16 = 0xFFFF;

/// One decoded record of sensor telemetry or metadata.
#[derive(Debug, Copy, Clone, PartialEq, Eq, Hash)]
pub struct Frame {
    /// Device time in whole seconds; `ABSENT_U32` where unsupported.
    pub system_secs: u32,
    /// The milliseconds below the second; `ABSENT_U16` where unsupported.
    pub system_millis: u16,
    /// The part below the millisecond; `ABSENT_U16` where unsupported.
    pub system_nanos: u16,
    /// Counts every frame of the device, over all sensors.
    pub global_sequence: u32,
    /// Counts the readings of this sensor; meta frames leave it unchanged.
    pub sensor_sequence: u32,
    /// The device's tag for the sensor.
    pub sensor_tag: u16,
    /// The payload.
    pub value: SensorData,
}

impl Frame {
    /// Creates a frame from its parts.
    pub fn new(
        system_secs: u32,
        system_millis: u16,
        system_nanos: u16,
        global_sequence: u32,
        sensor_sequence: u32,
        sensor_tag: u16,
        value: SensorData,
    ) -> (frame: Frame)
        ensures
            frame == (Frame {
                system_secs,
                system_millis,
                system_nanos,
                global_sequence,
                sensor_sequence,
                sensor_tag,
                value,
            }),
    {
        Frame {
            system_secs,
            system_millis,
            system_nanos,
            global_sequence,
            sensor_sequence,
            sensor_tag,
            value,
        }
    }

    pub open spec fn spec_is_meta(&self) -> bool {
        self.value.spec_is_meta()
    }

    /// Whether this is a meta frame: calibration or identification.
    #[verifier::when_used_as_spec(spec_is_meta)]
    pub fn is_meta(&self) -> (meta: bool)
        ensures
            meta == self.spec_is_meta(),
    {
        self.value.is_meta()
    }

    pub open spec fn spec_sensor_id(&self) -> SensorId {
        SensorId {
            tag: self.sensor_tag,
            sensor_type_id: self.value.spec_sensor_type_id(),
            value_type: self.value.spec_value_type(),
        }
    }

    /// The ID under which the frame itself travels: its tag with the sensor
    /// type and encoding of its payload.
    #[verifier::when_used_as_spec(spec_sensor_id)]
    pub fn sensor_id(&self) -> (id: SensorId)
        ensures
            id == self.spec_sensor_id(),
    {
        SensorId {
            tag: self.sensor_tag,
            sensor_type_id: self.value.sensor_type_id(),
            value_type: self.value.value_type(),
        }
    }

    pub open spec fn spec_target(&self) -> SensorId {
        match self.value.spec_meta_target() {
            Some(target) => target,
            None => self.spec_sensor_id(),
        }
    }

    /// The sensor that the frame is about: the sensor a meta frame
    /// describes, else the frame's own ID.
    #[verifier::when_used_as_spec(spec_target)]
    pub fn target(&self) -> (id: SensorId)
        ensures
            id == self.spec_target(),
    {
        match self.value.meta_target() {
            Some(target) => target,
            None => self.sensor_id(),
        }
    }
}

} // verus!
