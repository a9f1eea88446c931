//! The live view: the latest frames of the whole stream and of each sensor,
//! with what is known of each sensor.

use crate::fps_counter::{marked, FpsCounter, FpsCounterView, TimeSpan};
use crate::frame::{Frame, IdentifierCode, LinearRanges, SensorData, SensorId};
use crate::text::{identification_string, identification_text};
use std::collections::{HashMap, VecDeque};
use vstd::prelude::*;
use vstd::std_specs::hash::*;
use vstd::std_specs::iter::IteratorSpec;

verus! {

broadcast use vstd::std_specs::hash::group_hash_axioms;

/// The number of frames that a ring holds unless told otherwise.
pub const DEFAULT_CAPACITY: usize = 100;

/// What a ring of frames holds and knows.
pub struct InnerView {
    /// Whether the ring belongs to one sensor. Such a ring takes its
    /// sensor's meta frames as knowledge of the sensor and does not store
    /// them.
    pub sensor_specific: bool,
    /// The number of frames that the ring keeps.
    pub capacity: nat,
    /// The stored frames, the latest first.
    pub data: Seq<Frame>,
    /// The rate estimator over the stored frames.
    pub rate: FpsCounterView,
    /// The sensor sequence of the latest stored frame.
    pub sequence: Option<u32>,
    /// The number of gaps in the sensor sequence.
    pub num_skipped: u32,
    /// The latest calibration record.
    pub calibration: Option<LinearRanges>,
    /// The latest name of the maker.
    pub maker: Seq<char>,
    /// The latest name of the product.
    pub product: Seq<char>,
}

/// Whether a frame with sensor sequence `current` comes after a gap: there
/// was a frame before it, and `current` neither follows that frame's
/// sequence, counted modulo 2^32, nor repeats it.
pub open spec fn is_skip(previous: Option<u32>, current: u32) -> bool {
    match previous {
        Some(previous) => current != previous && current as int != (previous + 1) % 0x1_0000_0000,
        None => false,
    }
}

/// The frames of a ring after `frame` arrived: the new frame in front, and
/// of the older ones as many as the capacity leaves room for.
pub open spec fn pushed(data: Seq<Frame>, capacity: nat, frame: Frame) -> Seq<Frame> {
    let all = seq![frame] + data;
    if all.len() <= capacity {
        all
    } else {
        all.take(capacity as int)
    }
}

/// A ring after a frame that arrived at `now`.
///
/// A ring of one sensor takes a meta frame as knowledge: a calibration
/// record becomes the calibration, an identification of the maker or of the
/// product becomes that name, and nothing else changes. Every other frame
/// is stored in front, counted as a gap where its sequence shows one, and
/// its arrival is recorded.
pub open spec fn enqueued(state: InnerView, frame: Frame, now: u64) -> InnerView {
    if state.sensor_specific && frame.spec_is_meta() {
        match frame.value {
            SensorData::LinearRanges(calibration) => InnerView {
                calibration: Some(calibration),
                ..state
            },
            SensorData::Identification(ident) => match ident.code {
                IdentifierCode::Maker => InnerView {
                    maker: identification_text(ident.value@),
                    ..state
                },
                IdentifierCode::Product => InnerView {
                    product: identification_text(ident.value@),
                    ..state
                },
                _ => state,
            },
            _ => state,
        }
    } else {
        InnerView {
            data: pushed(state.data, state.capacity, frame),
            rate: marked(state.rate, now),
            sequence: Some(frame.sensor_sequence),
            num_skipped: if is_skip(state.sequence, frame.sensor_sequence) {
                ((state.num_skipped + 1) % 0x1_0000_0000) as u32
            } else {
                state.num_skipped
            },
            ..state
        }
    }
}

/// A ring that has seen nothing.
pub open spec fn fresh(sensor_specific: bool) -> InnerView {
    InnerView {
        sensor_specific,
        capacity: DEFAULT_CAPACITY as nat,
        data: Seq::<Frame>::empty(),
        rate: FpsCounterView { stamps: Seq::<u64>::empty(), capacity: 100, code: 0 },
        sequence: None,
        num_skipped: 0,
        calibration: None,
        maker: Seq::<char>::empty(),
        product: Seq::<char>::empty(),
    }
}

/// How much is known of a sensor.
#[derive(Debug, Copy, Clone, PartialEq, Eq, Hash, Structural)]
pub enum SensorState {
    /// Nothing has arrived.
    Unknown,
    /// Readings have arrived.
    Seen,
    /// A name of the maker or of the product has arrived.
    Identified,
    /// A calibration record has arrived.
    Calibrated,
}

/// How much a ring knows of its sensor: that it is calibrated, else that it
/// has a name, else that it has sent readings.
pub open spec fn state_of(ring: InnerView) -> SensorState {
    if ring.calibration is Some {
        SensorState::Calibrated
    } else if ring.maker.len() > 0 || ring.product.len() > 0 {
        SensorState::Identified
    } else if ring.data.len() > 0 {
        SensorState::Seen
    } else {
        SensorState::Unknown
    }
}

/// The place of a state in the order in which a sensor becomes known.
pub open spec fn state_rank(state: SensorState) -> nat {
    match state {
        SensorState::Unknown => 0,
        SensorState::Seen => 1,
        SensorState::Identified => 2,
        SensorState::Calibrated => 3,
    }
}

/// A ring of the latest frames with what is known of their sensor.
#[derive(Debug)]
pub struct InnerSensorDataBuffer {
    sensor_specific: bool,
    capacity: usize,
    data: VecDeque<Frame>,
    fps: FpsCounter,
    sequence: Option<u32>,
    num_skipped: u32,
    calibration: Option<LinearRanges>,
    maker: String,
    product: String,
}

impl View for InnerSensorDataBuffer {
    type V = InnerView;

    closed spec fn view(&self) -> InnerView {
        InnerView {
            sensor_specific: self.sensor_specific,
            capacity: self.capacity as nat,
            data: self.data@,
            rate: self.fps@,
            sequence: self.sequence,
            num_skipped: self.num_skipped,
            calibration: self.calibration,
            maker: self.maker@,
            product: self.product@,
        }
    }
}

impl Default for InnerSensorDataBuffer {
    /// The ring of one sensor, which has seen nothing.
    fn default() -> (buffer: InnerSensorDataBuffer)
        ensures
            buffer@ == fresh(true),
    {
        InnerSensorDataBuffer::new(true)
    }
}

impl InnerSensorDataBuffer {
    /// A ring that has seen nothing.
    pub fn new(sensor_specific: bool) -> (buffer: InnerSensorDataBuffer)
        ensures
            buffer@ == fresh(sensor_specific),
    {
        InnerSensorDataBuffer {
            sensor_specific,
            capacity: DEFAULT_CAPACITY,
            data: VecDeque::new(),
            fps: FpsCounter::default(),
            sequence: None,
            num_skipped: 0,
            calibration: None,
            maker: String::new(),
            product: String::new(),
        }
    }

    /// The number of stored frames.
    pub fn len(&self) -> (len: usize)
        ensures
            len == self@.data.len(),
    {
        self.data.len()
    }

    /// Whether no frame is stored.
    pub fn is_empty(&self) -> (empty: bool)
        ensures
            empty == (self@.data.len() == 0),
    {
        self.len() == 0
    }

    /// The number of frames that the ring keeps.
    pub fn capacity(&self) -> (capacity: usize)
        ensures
            capacity == self@.capacity,
    {
        self.capacity
    }

    /// Takes a frame that arrives now. The time is read from the clock: the
    /// ring is then as after the frame's arrival at some time.
    pub fn enqueue(&mut self, frame: Frame)
        ensures
            exists|now: u64| final(self)@ == enqueued(old(self)@, frame, now),
    {
        let now = self.fps.now();
        self.enqueue_at(frame, now);
    }

    /// Takes a frame that arrived at `now`.
    pub fn enqueue_at(&mut self, frame: Frame, now: u64)
        ensures
            final(self)@ == enqueued(old(self)@, frame, now),
    {
        if self.sensor_specific && frame.is_meta() {
            match frame.value {
                SensorData::LinearRanges(calibration) => {
                    self.calibration = Some(calibration);
                },
                SensorData::Identification(ident) => match ident.code {
                    IdentifierCode::Generic => {},
                    IdentifierCode::Maker => {
                        self.maker = identification_string(ident.value.as_slice());
                    },
                    IdentifierCode::Product => {
                        self.product = identification_string(ident.value.as_slice());
                    },
                    IdentifierCode::Revision => {},
                },
                _ => {},
            }
            return ;
        }
        let skipped = match self.sequence {
            Some(previous) => frame.sensor_sequence != previous && frame.sensor_sequence
                != previous.wrapping_add(1),
            None => false,
        };
        self.sequence = Some(frame.sensor_sequence);
        if skipped {
            self.num_skipped = self.num_skipped.wrapping_add(1);
        }
        self.data.push_front(frame);
        self.data.truncate(self.capacity);
        assert(self.data@ =~= pushed(old(self).data@, self.capacity as nat, frame));
        self.fps.increment_at(now);
    }

    /// Appends the latest frames to `target`, the latest first and at most
    /// `count` of them. Returns their number.
    pub fn clone_latest(&self, count: usize, target: &mut Vec<Frame>) -> (length: usize)
        ensures
            length == (if count <= self@.data.len() {
                count as nat
            } else {
                self@.data.len()
            }),
            final(target)@ == old(target)@ + self@.data.take(length as int),
    {
        let length = if count <= self.data.len() {
            count
        } else {
            self.data.len()
        };
        let mut next: usize = 0;
        while next < length
            invariant
                next <= length <= self.data@.len(),
                target@ == old(target)@ + self.data@.take(next as int),
            decreases length - next,
        {
            target.push(self.data[next]);
            next = next + 1;
        }
        length
    }

    /// The number of gaps in the sensor sequence.
    pub fn skipped(&self) -> (skipped: u32)
        ensures
            skipped == self@.num_skipped,
    {
        self.num_skipped
    }

    /// The average time between the arrivals of stored frames.
    pub fn average_duration(&self) -> (average: TimeSpan)
        ensures
            average == crate::fps_counter::coded_time(self@.rate.code),
    {
        self.fps.fps()
    }

    /// The latest stored frame.
    pub fn get_latest(&self) -> (latest: Option<Frame>)
        ensures
            latest == (if self@.data.len() > 0 {
                Some(self@.data[0])
            } else {
                None
            }),
    {
        if self.data.len() > 0 {
            Some(self.data[0])
        } else {
            None
        }
    }

    /// The latest calibration record.
    pub fn calibration(&self) -> (calibration: Option<LinearRanges>)
        ensures
            calibration == self@.calibration,
    {
        self.calibration
    }

    /// How much is known of the sensor.
    pub fn state(&self) -> (state: SensorState)
        ensures
            state == state_of(self@),
    {
        if self.calibration.is_some() {
            SensorState::Calibrated
        } else if !self.maker.as_str().is_empty() || !self.product.as_str().is_empty() {
            SensorState::Identified
        } else if self.data.len() > 0 {
            SensorState::Seen
        } else {
            SensorState::Unknown
        }
    }

    /// The latest name of the maker.
    pub fn maker(&self) -> (name: String)
        ensures
            name@ == self@.maker,
    {
        self.maker.clone()
    }

    /// The latest name of the product.
    pub fn product(&self) -> (name: String)
        ensures
            name@ == self@.product,
    {
        self.product.clone()
    }
}

/// What the live view holds: the ring of the whole stream, and the ring of
/// each sensor under the sensor's packed ID.
pub struct BufferView {
    pub inner: InnerView,
    pub by_sensor: Map<u32, InnerView>,
}

/// Whether every ring is the ring of a sensor.
pub open spec fn sensor_rings(rings: Map<u32, InnerView>) -> bool {
    forall|key: u32| #[trigger] rings.contains_key(key) ==> rings[key].sensor_specific
}

/// The rings of the sensors under the sensors' packed IDs.
#[derive(Debug)]
struct SensorRings {
    rings: HashMap<u32, InnerSensorDataBuffer>,
}

impl View for SensorRings {
    type V = Map<u32, InnerView>;

    closed spec fn view(&self) -> Map<u32, InnerView> {
        self.rings@.map_values(|ring: InnerSensorDataBuffer| ring@)
    }
}

impl SensorRings {
    #[verifier::type_invariant]
    spec fn holds_sensor_rings(&self) -> bool {
        sensor_rings(self@)
    }

    /// No rings.
    fn new() -> (rings: SensorRings)
        ensures
            rings@ == Map::<u32, InnerView>::empty(),
    {
        let rings = SensorRings { rings: HashMap::new() };
        rings
    }

    /// Hands a frame that arrived at `now` to the ring under `key`, which is
    /// made if there is none.
    fn enqueue_at(&mut self, key: u32, frame: Frame, now: u64)
        ensures
            final(self)@ == old(self)@.insert(
                key,
                enqueued(
                    if old(self)@.contains_key(key) {
                        old(self)@[key]
                    } else {
                        fresh(true)
                    },
                    frame,
                    now,
                ),
            ),
            sensor_rings(final(self)@),
    {
        proof {
            use_type_invariant(&*self);
        }
        let mut rings: HashMap<u32, InnerSensorDataBuffer> = HashMap::new();
        core::mem::swap(&mut rings, &mut self.rings);
        let mut ring = match rings.remove(&key) {
            Some(ring) => ring,
            None => InnerSensorDataBuffer::default(),
        };
        ring.enqueue_at(frame, now);
        rings.insert(key, ring);
        assert(rings@.map_values(|ring: InnerSensorDataBuffer| ring@) =~= old(self)@.insert(
            key,
            enqueued(
                if old(self)@.contains_key(key) {
                    old(self)@[key]
                } else {
                    fresh(true)
                },
                frame,
                now,
            ),
        ));
        self.rings = rings;
    }

    /// The ring under `key`.
    fn get(&self, key: u32) -> (ring: Option<&InnerSensorDataBuffer>)
        ensures
            sensor_rings(self@),
            match ring {
                Some(ring) => self@.contains_key(key) && self@[key] == ring@,
                None => !self@.contains_key(key),
            },
    {
        proof {
            use_type_invariant(self);
        }
        self.rings.get(&key)
    }
}

/// The live view after a frame that arrived at `now`.
///
/// The ring of the whole stream takes every frame. A frame of the board,
/// whose tag is 0, goes no further. Every other frame goes to the ring of
/// the sensor that it is about, which is made for the first of them.
pub open spec fn buffered(state: BufferView, frame: Frame, now: u64) -> BufferView {
    let inner = enqueued(state.inner, frame, now);
    if frame.sensor_tag == 0 {
        BufferView { inner, by_sensor: state.by_sensor }
    } else {
        let key = frame.spec_target().spec_key();
        let ring = if state.by_sensor.contains_key(key) {
            state.by_sensor[key]
        } else {
            fresh(true)
        };
        BufferView { inner, by_sensor: state.by_sensor.insert(key, enqueued(ring, frame, now)) }
    }
}

/// The live view of the stream.
#[derive(Debug)]
pub struct SensorDataBuffer {
    inner: InnerSensorDataBuffer,
    by_sensor: SensorRings,
}

impl View for SensorDataBuffer {
    type V = BufferView;

    closed spec fn view(&self) -> BufferView {
        BufferView { inner: self.inner@, by_sensor: self.by_sensor@ }
    }
}

impl Default for SensorDataBuffer {
    /// A live view that has seen nothing.
    fn default() -> (buffer: SensorDataBuffer)
        ensures
            buffer@.inner == fresh(false),
            buffer@.by_sensor == Map::<u32, InnerView>::empty(),
    {
        SensorDataBuffer { inner: InnerSensorDataBuffer::new(false), by_sensor: SensorRings::new() }
    }
}

impl SensorDataBuffer {
    /// The number of frames in the ring of the whole stream.
    pub fn len(&self) -> (len: usize)
        ensures
            len == self@.inner.data.len(),
    {
        self.inner.len()
    }

    /// Whether the ring of the whole stream is empty.
    pub fn is_empty(&self) -> (empty: bool)
        ensures
            empty == (self@.inner.data.len() == 0),
    {
        self.len() == 0
    }

    /// The number of frames that the ring of the whole stream keeps.
    pub fn capacity(&self) -> (capacity: usize)
        ensures
            capacity == self@.inner.capacity,
    {
        self.inner.capacity()
    }

    /// The number of sensors.
    pub fn num_sensors(&self) -> (count: usize)
        ensures
            count == self@.by_sensor.dom().len(),
    {
        assert(self@.by_sensor.dom() =~= self.by_sensor.rings@.dom());
        self.by_sensor.rings.len()
    }

    /// The time on the clock of the live view, in nanoseconds since the live
    /// view was made. The clock decides: nothing is known of the time
    /// beforehand.
    pub fn now(&self) -> u64 {
        self.inner.fps.now()
    }

    /// Takes a frame that arrives now. The time is read from the clock: the
    /// live view is then as after the frame's arrival at some time.
    pub fn enqueue(&mut self, frame: Frame)
        ensures
            exists|now: u64| final(self)@ == buffered(old(self)@, frame, now),
    {
        let now = self.now();
        self.enqueue_at(frame, now);
    }

    /// Takes a frame that arrived at `now`.
    pub fn enqueue_at(&mut self, frame: Frame, now: u64)
        ensures
            final(self)@ == buffered(old(self)@, frame, now),
            frame.sensor_tag == 0 ==> final(self)@.by_sensor == old(self)@.by_sensor,
            sensor_rings(final(self)@.by_sensor),
    {
        self.inner.enqueue_at(frame, now);
        if frame.sensor_tag == 0 {
            proof {
                use_type_invariant(&self.by_sensor);
            }
            return ;
        }
        let key = frame.target().key();
        self.by_sensor.enqueue_at(key, frame, now);
    }

    /// Appends the latest frames of the whole stream to `target`, the latest
    /// first and at most `count` of them. Returns their number.
    pub fn clone_latest(&self, count: usize, target: &mut Vec<Frame>) -> (length: usize)
        ensures
            length == (if count <= self@.inner.data.len() {
                count as nat
            } else {
                self@.inner.data.len()
            }),
            final(target)@ == old(target)@ + self@.inner.data.take(length as int),
    {
        self.inner.clone_latest(count, target)
    }

    /// The average time between the arrivals of the frames of the whole
    /// stream.
    pub fn average_duration(&self) -> (average: TimeSpan)
        ensures
            average == crate::fps_counter::coded_time(self@.inner.rate.code),
    {
        self.inner.average_duration()
    }

    /// The sensors, each once, in no particular order.
    pub fn get_sensors(&self) -> (sensors: Vec<SensorId>)
        ensures
            sensors@.no_duplicates(),
            forall|id: SensorId|
                sensors@.contains(id) <==> #[trigger] self@.by_sensor.contains_key(id.spec_key()),
    {
        let mut sensors: Vec<SensorId> = Vec::new();
        let ghost keys = spec_keys_iter(&self.by_sensor.rings).remaining().unref();
        let ghost mut done: int = 0;
        for key in iter: self.by_sensor.rings.keys()
            invariant
                iter.seq() == spec_keys_iter(&self.by_sensor.rings).remaining(),
                keys == iter.seq().unref(),
                keys.to_set() == self.by_sensor.rings@.dom(),
                keys.no_duplicates(),
                done == iter.index(),
                sensors@.no_duplicates(),
                forall|j: int|
                    0 <= j < sensors@.len() ==> exists|i: int|
                        0 <= i < done && keys[i] == (#[trigger] sensors@[j]).spec_key(),
                forall|i: int|
                    0 <= i < done ==> (#[trigger] SensorId::spec_from_key(keys[i]) matches Some(
                        id,
                    ) ==> sensors@.contains(id)),
        {
            let ghost before = sensors@;
            match SensorId::from_key(*key) {
                Some(id) => {
                    assert forall|j: int| 0 <= j < before.len() implies before[j] != id by {
                        let i = choose|i: int| 0 <= i < done && keys[i] == before[j].spec_key();
                        assert(keys[i] != keys[done]);
                    }
                    sensors.push(id);
                    assert(sensors@[before.len() as int] == id);
                    assert forall|i: int| 0 <= i < done + 1 implies (
                    #[trigger] SensorId::spec_from_key(keys[i]) matches Some(found)
                        ==> sensors@.contains(found)) by {
                        if let Some(found) = SensorId::spec_from_key(keys[i]) {
                            if i < done {
                                let j = choose|j: int| 0 <= j < before.len() && before[j] == found;
                                assert(sensors@[j] == found);
                            }
                        }
                    }
                    assert forall|j: int| 0 <= j < sensors@.len() implies exists|i: int|
                        0 <= i < done + 1 && keys[i] == (#[trigger] sensors@[j]).spec_key() by {
                        if j < before.len() {
                            let i = choose|i: int|
                                0 <= i < done && keys[i] == before[j].spec_key();
                            assert(keys[i] == sensors@[j].spec_key());
                        }
                    }
                },
                None => {
                    assert forall|j: int| 0 <= j < sensors@.len() implies exists|i: int|
                        0 <= i < done + 1 && keys[i] == (#[trigger] sensors@[j]).spec_key() by {
                        let i = choose|i: int|
                            0 <= i < done && keys[i] == before[j].spec_key();
                        assert(keys[i] == sensors@[j].spec_key());
                    }
                },
            }
            proof {
                done = done + 1;
            }
        }
        proof {
            assert forall|id: SensorId| sensors@.contains(id) <==> #[trigger]
                self@.by_sensor.contains_key(id.spec_key()) by {
                if sensors@.contains(id) {
                    let j = choose|j: int| 0 <= j < sensors@.len() && sensors@[j] == id;
                    let i = choose|i: int| 0 <= i < keys.len() && keys[i] == sensors@[j].spec_key();
                    assert(keys.to_set().contains(keys[i]));
                }
                if self@.by_sensor.contains_key(id.spec_key()) {
                    assert(keys.to_set().contains(id.spec_key()));
                    let i = choose|i: int| 0 <= i < keys.len() && keys[i] == id.spec_key();
                    crate::frame::lemma_key_round_trip(id);
                    assert(SensorId::spec_from_key(keys[i]) == Some(id));
                }
            }
        }
        sensors
    }

    /// The latest frame of a sensor.
    pub fn get_latest_by_sensor(&self, id: &SensorId) -> (latest: Option<Frame>)
        ensures
            latest == (if self@.by_sensor.contains_key(id.spec_key()) && self@.by_sensor[id.spec_key()].data.len()
                > 0 {
                Some(self@.by_sensor[id.spec_key()].data[0])
            } else {
                None
            }),
    {
        let key = id.key();
        match self.by_sensor.get(key) {
            Some(ring) => ring.get_latest(),
            None => None,
        }
    }

    /// The average time between the arrivals of the frames of a sensor.
    pub fn get_average_duration_by_sensor(&self, id: &SensorId) -> (average: Option<TimeSpan>)
        ensures
            average == (if self@.by_sensor.contains_key(id.spec_key()) {
                Some(crate::fps_counter::coded_time(self@.by_sensor[id.spec_key()].rate.code))
            } else {
                None
            }),
    {
        let key = id.key();
        match self.by_sensor.get(key) {
            Some(ring) => Some(ring.average_duration()),
            None => None,
        }
    }

    /// The number of gaps in the sequence of a sensor; zero for a sensor
    /// that is not known.
    pub fn get_skipped_by_sensor(&self, id: &SensorId) -> (skipped: u32)
        ensures
            skipped == (if self@.by_sensor.contains_key(id.spec_key()) {
                self@.by_sensor[id.spec_key()].num_skipped
            } else {
                0
            }),
    {
        let key = id.key();
        match self.by_sensor.get(key) {
            Some(ring) => ring.skipped(),
            None => 0,
        }
    }

    /// The product name of a sensor; empty for a sensor that is not known.
    pub fn get_sensor_name(&self, id: &SensorId) -> (name: String)
        ensures
            name@ == (if self@.by_sensor.contains_key(id.spec_key()) {
                self@.by_sensor[id.spec_key()].product
            } else {
                Seq::<char>::empty()
            }),
    {
        let key = id.key();
        match self.by_sensor.get(key) {
            Some(ring) => ring.product(),
            None => String::new(),
        }
    }

    /// How much is known of a sensor.
    pub fn get_state_by_sensor(&self, id: &SensorId) -> (state: SensorState)
        ensures
            state == (if self@.by_sensor.contains_key(id.spec_key()) {
                state_of(self@.by_sensor[id.spec_key()])
            } else {
                SensorState::Unknown
            }),
    {
        let key = id.key();
        match self.by_sensor.get(key) {
            Some(ring) => ring.state(),
            None => SensorState::Unknown,
        }
    }

    /// The calibration by which the readings of a sensor are converted, if
    /// one has arrived.
    pub fn get_calibration_by_sensor(&self, id: &SensorId) -> (calibration: Option<LinearRanges>)
        ensures
            calibration == (if self@.by_sensor.contains_key(id.spec_key()) {
                self@.by_sensor[id.spec_key()].calibration
            } else {
                None
            }),
    {
        let key = id.key();
        match self.by_sensor.get(key) {
            Some(ring) => ring.calibration(),
            None => None,
        }
    }
}

/// The live view after a run of frames that arrived at `now`, in their
/// order.
pub open spec fn all_buffered(state: BufferView, frames: Seq<Frame>, now: u64) -> BufferView
    decreases frames.len(),
{
    if frames.len() == 0 {
        state
    } else {
        buffered(all_buffered(state, frames.drop_last(), now), frames.last(), now)
    }
}

/// Hands the frames that the decoder emitted at `now` to the live view, in
/// their order.
pub fn decoder_to_buffer(frames: &Vec<Frame>, data_buffer: &mut SensorDataBuffer, now: u64)
    ensures
        final(data_buffer)@ == all_buffered(old(data_buffer)@, frames@, now),
        sensor_rings(final(data_buffer)@.by_sensor),
{
    proof {
        use_type_invariant(&data_buffer.by_sensor);
    }
    let mut next: usize = 0;
    while next < frames.len()
        invariant
            next <= frames@.len(),
            data_buffer@ == all_buffered(old(data_buffer)@, frames@.take(next as int), now),
            sensor_rings(data_buffer@.by_sensor),
        decreases frames@.len() - next,
    {
        data_buffer.enqueue_at(frames[next], now);
        next = next + 1;
        assert(frames@.take(next as int).drop_last() =~= frames@.take(next - 1));
    }
    assert(frames@.take(next as int) =~= frames@);
}

/// The latest calibration record of a sensor is the one in force: after two
/// records in a row, the ring of the sensor holds the second.
pub proof fn lemma_last_calibration_wins(
    state: InnerView,
    first: Frame,
    second: Frame,
    first_at: u64,
    second_at: u64,
)
    requires
        state.sensor_specific,
        first.value is LinearRanges,
        second.value is LinearRanges,
    ensures
        enqueued(enqueued(state, first, first_at), second, second_at).calibration == Some(
            second.value->LinearRanges_0,
        ),
{
}

/// The same of the live view: after two calibration records for one sensor
/// in a row, neither of them a frame of the board, the sensor is known and
/// the second record is its calibration.
pub proof fn lemma_last_calibration_wins_by_sensor(
    state: BufferView,
    first: Frame,
    second: Frame,
    first_at: u64,
    second_at: u64,
)
    requires
        sensor_rings(state.by_sensor),
        first.value is LinearRanges,
        second.value is LinearRanges,
        first.spec_target() == second.spec_target(),
        first.sensor_tag != 0,
        second.sensor_tag != 0,
    ensures
        ({
            let after = buffered(buffered(state, first, first_at), second, second_at);
            let key = second.spec_target().spec_key();
            &&& after.by_sensor.contains_key(key)
            &&& after.by_sensor[key].calibration == Some(second.value->LinearRanges_0)
        }),
{
}

/// A frame of the board reaches the ring of the whole stream and no ring of
/// a sensor.
pub proof fn lemma_board_frames_stay_out(state: BufferView, frame: Frame, now: u64)
    requires
        frame.sensor_tag == 0,
    ensures
        buffered(state, frame, now).by_sensor == state.by_sensor,
        buffered(state, frame, now).inner == enqueued(state.inner, frame, now),
{
}

/// A meta frame is knowledge of its sensor and no reading: in the ring of
/// a sensor it is not stored, and it moves neither the sequence nor the
/// count of gaps, nor the rate.
pub proof fn lemma_meta_frames_are_not_stored(state: InnerView, frame: Frame, now: u64)
    requires
        state.sensor_specific,
        frame.spec_is_meta(),
    ensures
        enqueued(state, frame, now).data == state.data,
        enqueued(state, frame, now).sequence == state.sequence,
        enqueued(state, frame, now).num_skipped == state.num_skipped,
        enqueued(state, frame, now).rate == state.rate,
{
}

/// A sensor only becomes better known: no frame takes the ring of a sensor
/// back to an earlier state, as long as no identification names the maker
/// or the product with nothing.
pub proof fn lemma_states_only_advance(state: InnerView, frame: Frame, now: u64)
    requires
        state.sensor_specific,
        state.capacity > 0,
        frame.value matches SensorData::Identification(ident) ==> identification_text(
            ident.value@,
        ).len() > 0,
    ensures
        state_rank(state_of(enqueued(state, frame, now))) >= state_rank(state_of(state)),
        frame.value is LinearRanges ==> state_of(enqueued(state, frame, now))
            == SensorState::Calibrated,
        !frame.spec_is_meta() ==> state_rank(state_of(enqueued(state, frame, now))) >= 1,
{
}

/// What is known of a sensor is kept: a ring that holds frames holds frames
/// after any frame, and a calibration that is known stays known.
pub proof fn lemma_knowledge_is_kept(state: InnerView, frame: Frame, now: u64)
    requires
        state.capacity > 0,
    ensures
        state.data.len() > 0 ==> enqueued(state, frame, now).data.len() > 0,
        state.calibration is Some ==> enqueued(state, frame, now).calibration is Some,
        state.sensor_specific && !frame.spec_is_meta() ==> enqueued(state, frame, now).data.len()
            > 0 && enqueued(state, frame, now).data[0] == frame,
{
}

/// A live view that has seen nothing.
pub open spec fn initial() -> BufferView {
    BufferView { inner: fresh(false), by_sensor: Map::<u32, InnerView>::empty() }
}

/// What a ring holds of a run of frames that it stored: the latest of them,
/// the latest first.
pub open spec fn latest_first(frames: Seq<Frame>, capacity: nat) -> Seq<Frame>
    decreases frames.len(),
{
    if frames.len() == 0 {
        Seq::<Frame>::empty()
    } else {
        pushed(latest_first(frames.drop_last(), capacity), capacity, frames.last())
    }
}

/// The readings of a sensor in a run of frames, in their order: the frames
/// that are no meta frames and travel under the sensor's ID.
pub open spec fn readings_of(frames: Seq<Frame>, id: SensorId) -> Seq<Frame>
    decreases frames.len(),
{
    if frames.len() == 0 {
        Seq::<Frame>::empty()
    } else if !frames.last().spec_is_meta() && frames.last().spec_sensor_id() == id {
        readings_of(frames.drop_last(), id).push(frames.last())
    } else {
        readings_of(frames.drop_last(), id)
    }
}

/// The ring of the whole stream sees every frame in the order of arrival:
/// after a run of frames it holds the latest of them, the latest first.
pub proof fn lemma_stream_ring_holds_the_latest_frames(frames: Seq<Frame>, now: u64)
    ensures
        all_buffered(initial(), frames, now).inner.data == latest_first(
            frames,
            DEFAULT_CAPACITY as nat,
        ),
        all_buffered(initial(), frames, now).inner.capacity == DEFAULT_CAPACITY,
        !all_buffered(initial(), frames, now).inner.sensor_specific,
    decreases frames.len(),
{
    if frames.len() > 0 {
        lemma_stream_ring_holds_the_latest_frames(frames.drop_last(), now);
    }
}

/// The ring of a sensor sees every reading of the sensor in the order of
/// arrival, and nothing else: after a run of frames, a sensor that has sent
/// a reading is known, and its ring holds the latest of its readings, the
/// latest first.
pub proof fn lemma_sensor_ring_holds_the_latest_readings(
    frames: Seq<Frame>,
    now: u64,
    id: SensorId,
)
    requires
        id.tag != 0,
    ensures
        ({
            let after = all_buffered(initial(), frames, now);
            let key = id.spec_key();
            &&& readings_of(frames, id).len() > 0 ==> after.by_sensor.contains_key(key)
            &&& after.by_sensor.contains_key(key) ==> {
                &&& after.by_sensor[key].sensor_specific
                &&& after.by_sensor[key].capacity == DEFAULT_CAPACITY
                &&& after.by_sensor[key].data == latest_first(
                    readings_of(frames, id),
                    DEFAULT_CAPACITY as nat,
                )
            }
        }),
    decreases frames.len(),
{
    if frames.len() > 0 {
        let frame = frames.last();
        let earlier = frames.drop_last();
        lemma_sensor_ring_holds_the_latest_readings(earlier, now, id);
        let before = all_buffered(initial(), earlier, now);
        let key = id.spec_key();
        if frame.sensor_tag != 0 && frame.spec_target().spec_key() == key {
            crate::frame::lemma_key_injective(frame.spec_target(), id);
            let ring = if before.by_sensor.contains_key(key) {
                before.by_sensor[key]
            } else {
                fresh(true)
            };
            assert(ring.data == latest_first(readings_of(earlier, id), DEFAULT_CAPACITY as nat));
            if !frame.spec_is_meta() && frame.spec_sensor_id() == id {
                assert(readings_of(frames, id).drop_last() =~= readings_of(earlier, id));
            }
        }
    }
}

} // verus!
