//! From the bytes of the serial line to frames.
//!
//! The wire format belongs to `serial_sensors_proto`: its `deserialize`
//! removes the byte stuffing in place and decodes one frame. [`Decoder`]
//! accumulates what the line delivers and decides what to do with the
//! accumulated bytes after each attempt to decode.

use crate::frame::{
    Frame, Identification, IdentifierCode, LinearRanges, SensorData, SensorId, ValueType, Vector3,
    VectorBits3, VectorBits4,
};
use serial_sensors_proto::types::Identification as WireIdentification;
use serial_sensors_proto::SensorData as WireSensorData;
use serial_sensors_proto::SensorId as WireSensorId;
use serial_sensors_proto::ValueType as WireValueType;
use vstd::prelude::*;

verus! {

/// `serial_sensors_proto::ValueType`, carried through as it is.
#[verifier::external_type_specification]
#[verifier::external_body]
pub struct ExWireValueType(WireValueType);

/// `serial_sensors_proto::SensorId`, carried through as it is.
#[verifier::external_type_specification]
#[verifier::external_body]
pub struct ExWireSensorId(WireSensorId);

/// `serial_sensors_proto::SensorData`, carried through as it is.
#[verifier::external_type_specification]
#[verifier::external_body]
pub struct ExWireSensorData(WireSensorData);

/// `serial_sensors_proto::Vector3Data`, carried through as it is.
#[verifier::external_type_specification]
#[verifier::external_body]
#[verifier::reject_recursive_types(T)]
pub struct ExWireVector3Data<T>(serial_sensors_proto::Vector3Data<T>);

/// `serial_sensors_proto::types::EulerAnglesF32`, carried through as it is.
#[verifier::external_type_specification]
#[verifier::external_body]
pub struct ExWireEulerAngles(serial_sensors_proto::types::EulerAnglesF32);

/// `serial_sensors_proto::types::OrientationQuaternionF32`, carried through
/// as it is.
#[verifier::external_type_specification]
#[verifier::external_body]
pub struct ExWireOrientationQuaternion(serial_sensors_proto::types::OrientationQuaternionF32);

/// `serial_sensors_proto::types::LinearRangeInfo`, carried through as it is.
#[verifier::external_type_specification]
#[verifier::external_body]
pub struct ExWireLinearRangeInfo(serial_sensors_proto::types::LinearRangeInfo);

/// `serial_sensors_proto::types::Identification`, carried through as it is.
#[verifier::external_type_specification]
#[verifier::external_body]
pub struct ExWireIdentification(WireIdentification);

/// `serial_sensors_proto::versions::Version1DataFrame`, carried through as
/// it is.
#[verifier::external_type_specification]
#[verifier::external_body]
pub struct ExWireFrame(serial_sensors_proto::versions::Version1DataFrame);

/// The library's value type for one of `serial_sensors_proto`: the variant
/// of the same name.
#[verifier::external_body]
fn value_type_from(value_type: WireValueType) -> ValueType {
    match value_type {
        WireValueType::UInt8 => ValueType::UInt8, WireValueType::SInt8 => ValueType::SInt8,
        WireValueType::UInt16 => ValueType::UInt16, WireValueType::SInt16 => ValueType::SInt16,
        WireValueType::UInt32 => ValueType::UInt32, WireValueType::SInt32 => ValueType::SInt32,
        WireValueType::UInt64 => ValueType::UInt64, WireValueType::SInt64 => ValueType::SInt64,
        WireValueType::UInt128 => ValueType::UInt128, WireValueType::SInt128 => ValueType::SInt128,
        WireValueType::Float32 => ValueType::Float32, WireValueType::Float64 => ValueType::Float64,
        WireValueType::Q8_8 => ValueType::Q8_8, WireValueType::Q16_16 => ValueType::Q16_16,
        WireValueType::Q32_32 => ValueType::Q32_32, WireValueType::LinearRange => ValueType::LinearRange,
        WireValueType::Identifier => ValueType::Identifier,
    }
}

/// The library's sensor ID for one of `serial_sensors_proto`: its tag, its
/// sensor type and its value type.
#[verifier::external_body]
fn sensor_id_from(id: &WireSensorId) -> SensorId {
    SensorId {
        tag: id.tag(),
        sensor_type_id: id.id(),
        value_type: value_type_from(id.value_type()),
    }
}

/// The three components of a `Vector3Data`.
#[verifier::external_body]
fn vector3_from(v: &serial_sensors_proto::Vector3Data<i16>) -> Vector3 {
    Vector3 { x: v.x, y: v.y, z: v.z }
}

/// The bit patterns of the three Euler angles.
#[verifier::external_body]
fn euler_from(v: &serial_sensors_proto::types::EulerAnglesF32) -> VectorBits3 {
    VectorBits3 { x: v.x.to_bits(), y: v.y.to_bits(), z: v.z.to_bits() }
}

/// The bit patterns of the four components of a quaternion.
#[verifier::external_body]
fn quaternion_from(v: &serial_sensors_proto::types::OrientationQuaternionF32) -> VectorBits4 {
    VectorBits4 { a: v.a.to_bits(), b: v.b.to_bits(), c: v.c.to_bits(), d: v.d.to_bits() }
}

/// The fields of a `LinearRangeInfo`.
#[verifier::external_body]
fn linear_ranges_from(info: &serial_sensors_proto::types::LinearRangeInfo) -> LinearRanges {
    LinearRanges {
        target: sensor_id_from(&info.target),
        resolution_bits: info.resolution_bits,
        scale_op: info.scale_op,
        scale: info.scale,
        scale_decimals: info.scale_decimals,
        offset: info.offset,
        offset_decimals: info.offset_decimals,
    }
}

/// The fields of an `Identification`.
#[verifier::external_body]
fn identification_from(ident: &WireIdentification) -> Identification {
    Identification {
        target: sensor_id_from(&ident.target),
        code: match ident.code {
            serial_sensors_proto::IdentifierCode::Generic => IdentifierCode::Generic,
            serial_sensors_proto::IdentifierCode::Maker => IdentifierCode::Maker,
            serial_sensors_proto::IdentifierCode::Product => IdentifierCode::Product,
            serial_sensors_proto::IdentifierCode::Revision => IdentifierCode::Revision,
        },
        value: ident.value,
    }
}

/// The library's payload for one of `serial_sensors_proto`: the variant of
/// the same name with the same components.
#[verifier::external_body]
fn sensor_data_from(value: &WireSensorData) -> SensorData {
    match value {
        WireSensorData::SystemClockFrequency(v) => SensorData::SystemClockFrequency(v.value),
        WireSensorData::AccelerometerI16(v) => SensorData::AccelerometerI16(vector3_from(v)),
        WireSensorData::MagnetometerI16(v) => SensorData::MagnetometerI16(vector3_from(v)),
        WireSensorData::TemperatureI16(v) => SensorData::TemperatureI16(v.value),
        WireSensorData::GyroscopeI16(v) => SensorData::GyroscopeI16(vector3_from(v)),
        WireSensorData::HeadingI16(v) => SensorData::HeadingI16(v.value),
        WireSensorData::EulerAnglesF32(v) => SensorData::EulerAnglesF32(euler_from(v)),
        WireSensorData::OrientationQuaternionF32(v) => SensorData::OrientationQuaternionF32(quaternion_from(v)),
        WireSensorData::LinearRanges(v) => SensorData::LinearRanges(linear_ranges_from(v)),
        WireSensorData::Identification(v) => SensorData::Identification(identification_from(v)),
    }
}

/// The library's frame for a `Version1DataFrame`: field by field.
#[verifier::external_body]
fn frame_from(frame: &serial_sensors_proto::versions::Version1DataFrame) -> Frame {
    Frame {
        system_secs: frame.system_secs,
        system_millis: frame.system_millis,
        system_nanos: frame.system_nanos,
        global_sequence: frame.global_sequence,
        sensor_sequence: frame.sensor_sequence,
        sensor_tag: frame.sensor_tag,
        value: sensor_data_from(&frame.value),
    }
}

/// What an attempt to decode one frame found.
#[derive(Debug, Copy, Clone, PartialEq, Eq)]
pub enum Deserialized {
    /// A frame, which took `read` bytes to hold once its byte stuffing was
    /// removed.
    Frame { read: usize, frame: Frame },
    /// The bytes end before the frame does.
    Truncated,
    /// The byte stuffing is broken.
    Corrupt,
    /// The envelope is sound and the record in it is unreadable.
    Malformed,
}

/// What `serial_sensors_proto::deserialize` returns on a buffer with these
/// bytes, and the bytes that it leaves in the buffer.
pub uninterp spec fn deserialized(bytes: Seq<u8>) -> (Deserialized, Seq<u8>);

/// `serial_sensors_proto::deserialize`, which works in place: what it finds
/// and what it leaves in the buffer are what it finds in and makes of any
/// buffer with the same bytes. A frame comes back as the library's frame
/// with the same fields, each error as the outcome of its name.
#[verifier::external_body]
fn deserialize(buffer: &mut Vec<u8>) -> (outcome: Deserialized)
    ensures
        (outcome, final(buffer)@) == deserialized(old(buffer)@),
{
    match serial_sensors_proto::deserialize(buffer.as_mut_slice()) {
        Ok((read, frame)) => Deserialized::Frame { read, frame: frame_from(&frame.data) },
        Err(serial_sensors_proto::DeserializationError::Truncated) => Deserialized::Truncated,
        Err(serial_sensors_proto::DeserializationError::Corrupt) => Deserialized::Corrupt,
        Err(serial_sensors_proto::DeserializationError::BincodeError(_)) => Deserialized::Malformed,
    }
}

/// The number of accumulated bytes beyond which an accumulator that holds no
/// frame is given up.
pub const ACCUMULATOR_LIMIT: usize = 65536;

/// The bytes without the zero bytes at their start.
pub open spec fn strip_zeros(bytes: Seq<u8>) -> Seq<u8>
    decreases bytes.len(),
{
    if bytes.len() > 0 && bytes[0] == 0 {
        strip_zeros(bytes.skip(1))
    } else {
        bytes
    }
}

/// What one attempt to decode makes of the accumulator.
pub struct Attempt {
    /// The accumulator after the attempt.
    pub rest: Seq<u8>,
    /// The frame to emit.
    pub frame: Option<Frame>,
    /// Whether to attempt again on what is left.
    pub again: bool,
}

/// What becomes of the accumulated bytes after an attempt to decode that
/// found `outcome` and left `residue` in the buffer it worked on.
///
/// - A frame is emitted. The accumulator becomes what the decoder left,
///   without the bytes that held the frame and the zero bytes behind them,
///   and the next attempt follows. A decoder that claims a frame and leaves
///   no fewer bytes than it was given cannot be followed: then the
///   accumulator is emptied and the attempts end.
/// - Truncated or corrupt bytes stay as they were, to wait for more.
/// - After an unreadable record nothing is kept.
pub open spec fn attempt(accumulator: Seq<u8>, outcome: Deserialized, residue: Seq<u8>) -> Attempt {
    match outcome {
        Deserialized::Frame { read, frame } => {
            let taken = if read <= residue.len() {
                read as int
            } else {
                residue.len() as int
            };
            let rest = strip_zeros(residue.skip(taken));
            if rest.len() < accumulator.len() {
                Attempt { rest, frame: Some(frame), again: true }
            } else {
                Attempt { rest: Seq::<u8>::empty(), frame: Some(frame), again: false }
            }
        },
        Deserialized::Truncated | Deserialized::Corrupt => Attempt {
            rest: accumulator,
            frame: None,
            again: false,
        },
        Deserialized::Malformed => Attempt { rest: Seq::<u8>::empty(), frame: None, again: false },
    }
}

/// What the zero bytes at the start of `bytes` are: `strip_zeros` removes
/// exactly them.
pub proof fn lemma_strip_zeros(bytes: Seq<u8>)
    ensures
        strip_zeros(bytes).len() <= bytes.len(),
        strip_zeros(bytes) == bytes.skip(bytes.len() - strip_zeros(bytes).len()),
        forall|i: int| 0 <= i < bytes.len() - strip_zeros(bytes).len() ==> #[trigger] bytes[i] == 0,
        strip_zeros(bytes).len() > 0 ==> strip_zeros(bytes)[0] != 0,
    decreases bytes.len(),
{
    if bytes.len() > 0 && bytes[0] == 0 {
        let tail = bytes.skip(1);
        lemma_strip_zeros(tail);
        let rest = strip_zeros(bytes);
        assert forall|i: int| 0 <= i < bytes.len() - rest.len() implies #[trigger] bytes[i]
            == 0 by {
            if i > 0 {
                assert(tail[i - 1] == bytes[i]);
            }
        }
    }
}

/// An attempt that is followed by another consumes the bytes that held the
/// frame and the zero bytes behind them, and nothing else.
pub proof fn lemma_attempt_consumes_frame_and_delimiters(
    accumulator: Seq<u8>,
    outcome: Deserialized,
    residue: Seq<u8>,
)
    requires
        outcome is Frame,
        outcome->read <= residue.len(),
        attempt(accumulator, outcome, residue).again,
    ensures
        ({
            let rest = attempt(accumulator, outcome, residue).rest;
            let consumed = residue.len() - rest.len();
            &&& outcome->read <= consumed <= residue.len()
            &&& rest == residue.skip(consumed)
            &&& forall|i: int| outcome->read <= i < consumed ==> #[trigger] residue[i] == 0
            &&& rest.len() > 0 ==> rest[0] != 0
        }),
{
    let read = outcome->read as int;
    let tail = residue.skip(read);
    lemma_strip_zeros(tail);
    let rest = strip_zeros(tail);
    let consumed = residue.len() - rest.len();
    assert forall|i: int| read <= i < consumed implies #[trigger] residue[i] == 0 by {
        assert(tail[i - read] == residue[i]);
    }
}

/// Settles the accumulator after an attempt to decode that found `outcome`
/// and left `residue` in the buffer it worked on. Returns the frame to
/// emit, and whether to attempt again.
pub fn settle(accumulator: &mut Vec<u8>, outcome: Deserialized, residue: Vec<u8>) -> (next: (
    Option<Frame>,
    bool,
))
    ensures
        attempt(old(accumulator)@, outcome, residue@) == (Attempt {
            rest: final(accumulator)@,
            frame: next.0,
            again: next.1,
        }),
{
    match outcome {
        Deserialized::Frame { read, frame } => {
            let mut residue = residue;
            let mut start: usize = if read <= residue.len() {
                read
            } else {
                residue.len()
            };
            let ghost taken = start as int;
            while start < residue.len() && residue[start] == 0
                invariant
                    taken <= start <= residue.len(),
                    strip_zeros(residue@.skip(taken)) == strip_zeros(residue@.skip(start as int)),
                decreases residue.len() - start,
            {
                assert(residue@.skip(start as int).skip(1) =~= residue@.skip(start + 1));
                start = start + 1;
            }
            let rest = residue.split_off(start);
            if rest.len() < accumulator.len() {
                *accumulator = rest;
                (Some(frame), true)
            } else {
                accumulator.clear();
                (Some(frame), false)
            }
        },
        Deserialized::Truncated => (None, false),
        Deserialized::Corrupt => (None, false),
        Deserialized::Malformed => {
            accumulator.clear();
            (None, false)
        },
    }
}

/// The frames that the accumulated bytes hold at their start, and what is
/// left of the bytes once no attempt follows.
pub open spec fn decode_all(accumulator: Seq<u8>) -> (Seq<Frame>, Seq<u8>)
    decreases accumulator.len(),
{
    if accumulator.len() == 0 {
        (Seq::<Frame>::empty(), accumulator)
    } else {
        let found = deserialized(accumulator);
        let next = attempt(accumulator, found.0, found.1);
        let frames = match next.frame {
            Some(frame) => seq![frame],
            None => Seq::<Frame>::empty(),
        };
        if next.again && next.rest.len() < accumulator.len() {
            (frames + decode_all(next.rest).0, decode_all(next.rest).1)
        } else {
            (frames, next.rest)
        }
    }
}

/// What the decoder emits and keeps when `data` arrives while it holds
/// `accumulator`: the frames at the start of all bytes together; and what is
/// left of the bytes, unless that is more than the limit, in which case
/// nothing is kept.
pub open spec fn fed(accumulator: Seq<u8>, data: Seq<u8>) -> (Seq<Frame>, Seq<u8>) {
    let (frames, left) = decode_all(accumulator + data);
    (
        frames,
        if left.len() > ACCUMULATOR_LIMIT {
            Seq::<u8>::empty()
        } else {
            left
        },
    )
}

/// Why the decoder stopped decoding.
#[derive(Debug, Copy, Clone, PartialEq, Eq, Hash, Structural)]
pub enum Halt {
    /// Nothing was left to decode.
    Drained,
    /// The bytes end before the frame does. They wait for more.
    Truncated,
    /// The byte stuffing is broken. The bytes wait for the next frame to
    /// bring the decoder back in step.
    Corrupt,
    /// A record was unreadable. Nothing was kept.
    Malformed,
    /// The decoder claimed a frame and consumed nothing. Nothing was kept.
    Stalled,
    /// More bytes than the limit held no frame. Nothing was kept.
    Overflow,
}

/// Why decoding of the accumulated bytes stops.
pub open spec fn halt_of(accumulator: Seq<u8>) -> Halt
    decreases accumulator.len(),
{
    if accumulator.len() == 0 {
        Halt::Drained
    } else {
        let found = deserialized(accumulator);
        let next = attempt(accumulator, found.0, found.1);
        if next.again && next.rest.len() < accumulator.len() {
            halt_of(next.rest)
        } else {
            match found.0 {
                Deserialized::Frame { .. } => Halt::Stalled,
                Deserialized::Truncated => Halt::Truncated,
                Deserialized::Corrupt => Halt::Corrupt,
                Deserialized::Malformed => Halt::Malformed,
            }
        }
    }
}

/// Why the decoder stops when `data` arrives while it holds `accumulator`.
pub open spec fn halted(accumulator: Seq<u8>, data: Seq<u8>) -> Halt {
    if decode_all(accumulator + data).1.len() > ACCUMULATOR_LIMIT {
        Halt::Overflow
    } else {
        halt_of(accumulator + data)
    }
}

/// Whether accumulated bytes wait for more: they hold no frame at their
/// start, stay as they are when decoding is attempted, and are within the
/// limit.
pub open spec fn at_rest(accumulator: Seq<u8>) -> bool {
    &&& decode_all(accumulator) == (Seq::<Frame>::empty(), accumulator)
    &&& accumulator.len() <= ACCUMULATOR_LIMIT
}

/// What decoding leaves holds no further frame.
pub proof fn lemma_decode_all_rests(accumulator: Seq<u8>)
    ensures
        decode_all(decode_all(accumulator).1) == (Seq::<Frame>::empty(), decode_all(accumulator).1),
        decode_all(accumulator).1.len() <= accumulator.len(),
    decreases accumulator.len(),
{
    if accumulator.len() > 0 {
        let found = deserialized(accumulator);
        let next = attempt(accumulator, found.0, found.1);
        if next.again && next.rest.len() < accumulator.len() {
            lemma_decode_all_rests(next.rest);
        }
    }
}

/// The frame decoder: accumulates the bytes of the serial line and emits
/// the frames in them.
pub struct Decoder {
    buffer: Vec<u8>,
    halt: Halt,
}

impl View for Decoder {
    type V = Seq<u8>;

    closed spec fn view(&self) -> Seq<u8> {
        self.buffer@
    }
}

impl Decoder {
    #[verifier::type_invariant]
    spec fn waits(&self) -> bool {
        at_rest(self.buffer@)
    }

    /// Why the decoder stopped decoding when it was fed last.
    pub closed spec fn spec_halt(&self) -> Halt {
        self.halt
    }

    /// A decoder that has accumulated nothing.
    pub fn new() -> (decoder: Decoder)
        ensures
            decoder@ == Seq::<u8>::empty(),
            decoder.spec_halt() == Halt::Drained,
    {
        Decoder { buffer: Vec::with_capacity(1024), halt: Halt::Drained }
    }

    /// Why the decoder stopped decoding when it was fed last.
    #[verifier::when_used_as_spec(spec_halt)]
    pub fn halt(&self) -> (halt: Halt)
        ensures
            halt == self.spec_halt(),
    {
        self.halt
    }

    /// The number of accumulated bytes.
    pub fn pending(&self) -> (len: usize)
        ensures
            len == self@.len(),
            at_rest(self@),
    {
        proof {
            use_type_invariant(self);
        }
        self.buffer.len()
    }

    /// Takes the next bytes of the line and returns the frames that are now
    /// complete, in their order on the line.
    ///
    /// Bytes that bring nothing bring no frame: what waits has been tried.
    pub fn feed(&mut self, data: &[u8]) -> (frames: Vec<Frame>)
        ensures
            (frames@, final(self)@) == fed(old(self)@, data@),
            final(self).spec_halt() == halted(old(self)@, data@),
            at_rest(final(self)@),
            data@.len() == 0 ==> frames@.len() == 0 && final(self)@ == old(self)@,
    {
        proof {
            use_type_invariant(&*self);
        }
        let mut buffer: Vec<u8> = Vec::new();
        core::mem::swap(&mut buffer, &mut self.buffer);
        buffer.extend_from_slice(data);
        assert(buffer@ =~= old(self)@ + data@);
        let ghost all = buffer@;
        let mut frames: Vec<Frame> = Vec::new();
        let mut halt = Halt::Drained;
        while buffer.len() > 0
            invariant_except_break
                decode_all(all) == (frames@ + decode_all(buffer@).0, decode_all(buffer@).1),
                halt_of(all) == halt_of(buffer@),
                halt == Halt::Drained,
            ensures
                decode_all(all) == (frames@, buffer@),
                halt_of(all) == halt,
            decreases buffer@.len(),
        {
            let ghost before = buffer@;
            let ghost emitted = frames@;
            let mut scratch = buffer.clone();
            let outcome = deserialize(&mut scratch);
            let (frame, again) = settle(&mut buffer, outcome, scratch);
            if let Some(frame) = frame {
                frames.push(frame);
            }
            proof {
                let next = attempt(before, outcome, scratch@);
                let fresh = match next.frame {
                    Some(frame) => seq![frame],
                    None => Seq::<Frame>::empty(),
                };
                if again {
                    assert(emitted + (fresh + decode_all(buffer@).0) =~= frames@ + decode_all(
                        buffer@,
                    ).0);
                }
            }
            if !again {
                halt = match outcome {
                    Deserialized::Frame { .. } => Halt::Stalled,
                    Deserialized::Truncated => Halt::Truncated,
                    Deserialized::Corrupt => Halt::Corrupt,
                    Deserialized::Malformed => Halt::Malformed,
                };
                break ;
            }
        }
        proof {
            lemma_decode_all_rests(all);
        }
        if buffer.len() > ACCUMULATOR_LIMIT {
            buffer.clear();
            halt = Halt::Overflow;
        }
        self.buffer = buffer;
        self.halt = halt;
        frames
    }
}

/// `count` zero bytes.
pub open spec fn zeros(count: nat) -> Seq<u8> {
    Seq::new(count, |i: int| 0u8)
}

/// Whether the decoder reads `frame` from `bytes` when `tail` follows them:
/// it finds the frame, and leaves in the buffer what held the frame, then
/// zero bytes up to the length of `bytes`, then `tail` as it was.
pub open spec fn reads(bytes: Seq<u8>, frame: Frame, tail: Seq<u8>) -> bool {
    let found = deserialized(bytes + tail);
    &&& found.0 is Frame
    &&& found.0->frame == frame
    &&& found.0->read <= bytes.len()
    &&& found.1.len() == bytes.len() + tail.len()
    &&& found.1.skip(found.0->read as int) == zeros((bytes.len() - found.0->read) as nat) + tail
}

/// Whether `bytes` are a complete encoding of `frame`: they start with a
/// byte that is not zero, and the decoder reads the frame from them whatever
/// follows.
pub open spec fn encodes(bytes: Seq<u8>, frame: Frame) -> bool {
    &&& bytes.len() > 0
    &&& bytes[0] != 0
    &&& forall|tail: Seq<u8>| #[trigger] reads(bytes, frame, tail)
}

/// Zero bytes before bytes that start with another byte are what
/// `strip_zeros` removes.
pub proof fn lemma_strip_leading_zeros(count: nat, bytes: Seq<u8>)
    requires
        bytes.len() > 0 ==> bytes[0] != 0,
    ensures
        strip_zeros(zeros(count) + bytes) == bytes,
    decreases count,
{
    if count > 0 {
        lemma_strip_leading_zeros((count - 1) as nat, bytes);
        assert((zeros(count) + bytes).skip(1) =~= zeros((count - 1) as nat) + bytes);
    }
}

/// An encoded frame at the start of the accumulated bytes is emitted, the
/// zero bytes behind it are dropped, and decoding goes on with what follows.
pub proof fn lemma_frame_then_more(bytes: Seq<u8>, frame: Frame, gap: nat, more: Seq<u8>)
    requires
        encodes(bytes, frame),
        more.len() > 0 ==> more[0] != 0,
    ensures
        decode_all(bytes + zeros(gap) + more) == (
            seq![frame] + decode_all(more).0,
            decode_all(more).1,
        ),
{
    let tail = zeros(gap) + more;
    let all = bytes + zeros(gap) + more;
    assert(all =~= bytes + tail);
    assert(reads(bytes, frame, tail));
    let found = deserialized(all);
    let read = found.0->read;
    let behind = (bytes.len() - read) as nat;
    assert(zeros(behind) + tail =~= zeros(behind + gap) + more);
    lemma_strip_leading_zeros(behind + gap, more);
}

/// Two encoded frames with any number of zero bytes between them, fed to a
/// decoder that holds nothing, come out as exactly those two frames, and
/// nothing is left.
pub proof fn lemma_frames_between_delimiters(
    first: Seq<u8>,
    first_frame: Frame,
    gap: nat,
    second: Seq<u8>,
    second_frame: Frame,
)
    requires
        encodes(first, first_frame),
        encodes(second, second_frame),
    ensures
        fed(Seq::<u8>::empty(), first + zeros(gap) + second) == (
            seq![first_frame, second_frame],
            Seq::<u8>::empty(),
        ),
        fed(Seq::<u8>::empty(), first + seq![0u8, 0u8] + second) == (
            seq![first_frame, second_frame],
            Seq::<u8>::empty(),
        ),
{
    let nothing = Seq::<u8>::empty();
    lemma_frame_then_more(second, second_frame, 0, nothing);
    lemma_frame_then_more(first, first_frame, gap, second);
    assert(seq![first_frame] + (seq![second_frame] + Seq::<Frame>::empty()) =~= seq![
        first_frame,
        second_frame,
    ]);
    lemma_frame_then_more(first, first_frame, 2, second);
    assert(zeros(2) =~= seq![0u8, 0u8]);
}

/// One encoded frame, fed to a decoder that holds nothing, comes out as
/// exactly that frame, and nothing is left.
pub proof fn lemma_frame_round_trip(bytes: Seq<u8>, frame: Frame)
    requires
        encodes(bytes, frame),
    ensures
        fed(Seq::<u8>::empty(), bytes) == (seq![frame], Seq::<u8>::empty()),
{
    let nothing = Seq::<u8>::empty();
    lemma_frame_then_more(bytes, frame, 0, nothing);
}

/// The decoder finds its way back after garbage: where a read brings
/// garbage up to a zero byte and the decoder finds the record in it
/// unreadable, nothing is emitted and nothing is kept, and the encoded frame
/// of the next read comes out as exactly that frame.
pub proof fn lemma_resync(garbage: Seq<u8>, bytes: Seq<u8>, frame: Frame)
    requires
        deserialized(garbage + seq![0u8]).0 is Malformed,
        encodes(bytes, frame),
    ensures
        fed(Seq::<u8>::empty(), garbage + seq![0u8]) == (
            Seq::<Frame>::empty(),
            Seq::<u8>::empty(),
        ),
        fed(fed(Seq::<u8>::empty(), garbage + seq![0u8]).1, bytes) == (
            seq![frame],
            Seq::<u8>::empty(),
        ),
{
    lemma_frame_round_trip(bytes, frame);
}

/// How the bytes on the line are checked for errors.
#[derive(Debug, Copy, Clone, PartialEq, Eq, Hash, Structural)]
pub enum Parity {
    Off,
    Odd,
    Even,
}

/// How the two ends of the line hold each other back.
#[derive(Debug, Copy, Clone, PartialEq, Eq, Hash, Structural)]
pub enum FlowControl {
    Off,
    Software,
    Hardware,
}

/// The parameters of the serial line.
#[derive(Debug, Copy, Clone, PartialEq, Eq, Hash, Structural)]
pub struct LinkSettings {
    pub data_bits: u8,
    pub flow_control: FlowControl,
    pub parity: Parity,
    pub stop_bits: u8,
    /// After how many milliseconds a read gives up.
    pub timeout_millis: u64,
}

/// The fixed parameters of the line to the device: 8 data bits, no flow
/// control, no parity, 1 stop bit, and reads that give up after 10 ms.
pub fn link_settings() -> (settings: LinkSettings)
    ensures
        settings == (LinkSettings {
            data_bits: 8,
            flow_control: FlowControl::Off,
            parity: Parity::Off,
            stop_bits: 1,
            timeout_millis: 10,
        }),
{
    LinkSettings {
        data_bits: 8,
        flow_control: FlowControl::Off,
        parity: Parity::Off,
        stop_bits: 1,
        timeout_millis: 10,
    }
}

/// The number of bytes that one read of the line can bring.
pub const READ_BUFFER_LEN: usize = 1024;

/// How a read of the line ended.
#[derive(Debug, Copy, Clone, PartialEq, Eq, Hash, Structural)]
pub enum ReadEvent {
    /// The read brought this many bytes.
    Read(usize),
    /// The read gave up waiting.
    TimedOut,
    /// The read failed otherwise.
    Failed,
}

/// What the reader of the line does after a read.
#[derive(Debug, Clone, PartialEq, Eq)]
pub enum ReadAction {
    /// Hand these bytes to the decoder.
    Forward(Vec<u8>),
    /// Read again.
    Ignore,
    /// Report the failure and end.
    Fail,
}

/// What follows on a read, by its contents.
pub enum ReadActionView {
    Forward(Seq<u8>),
    Ignore,
    Fail,
}

impl View for ReadAction {
    type V = ReadActionView;

    open spec fn view(&self) -> ReadActionView {
        match *self {
            ReadAction::Forward(bytes) => ReadActionView::Forward(bytes@),
            ReadAction::Ignore => ReadActionView::Ignore,
            ReadAction::Fail => ReadActionView::Fail,
        }
    }
}

/// What follows on a read into `buffer`: the bytes that a read brought are
/// handed on; a read that brought none, or gave up waiting, is passed over;
/// any other failure ends the reader.
pub open spec fn read_action(buffer: Seq<u8>, event: ReadEvent) -> ReadActionView {
    match event {
        ReadEvent::Read(count) => if count == 0 {
            ReadActionView::Ignore
        } else {
            ReadActionView::Forward(buffer.take(count as int))
        },
        ReadEvent::TimedOut => ReadActionView::Ignore,
        ReadEvent::Failed => ReadActionView::Fail,
    }
}

/// Decides what follows on a read of the line into `buffer`.
pub fn handle_data_recv(buffer: &[u8], event: ReadEvent) -> (action: ReadAction)
    requires
        event matches ReadEvent::Read(count) ==> count <= buffer@.len(),
    ensures
        action@ == read_action(buffer@, event),
        event matches ReadEvent::Read(count) ==> (count == 0 <==> action is Ignore),
        event is TimedOut ==> action is Ignore,
{
    match event {
        ReadEvent::Read(count) => {
            if count == 0 {
                ReadAction::Ignore
            } else {
                let bytes = vstd::slice::slice_to_vec(vstd::slice::slice_subrange(buffer, 0, count));
                ReadAction::Forward(bytes)
            }
        },
        ReadEvent::TimedOut => ReadAction::Ignore,
        ReadEvent::Failed => ReadAction::Fail,
    }
}

/// A read that brings nothing brings no frame: the reader hands nothing on
/// after an empty read or one that gave up waiting, and a decoder that is
/// handed no bytes emits nothing and keeps what it had.
pub proof fn lemma_empty_reads_bring_no_frames(buffer: Seq<u8>, accumulator: Seq<u8>)
    requires
        at_rest(accumulator),
    ensures
        read_action(buffer, ReadEvent::Read(0)) is Ignore,
        read_action(buffer, ReadEvent::TimedOut) is Ignore,
        fed(accumulator, Seq::<u8>::empty()) == (Seq::<Frame>::empty(), accumulator),
{
}

} // verus!
