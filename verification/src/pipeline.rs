//! What the two consumers of the decoded frames have in common.
//!
//! Every decoded frame goes to the live view and to the dumper. The laws
//! here relate what the two make of one run of frames.

use crate::data_buffer::{all_buffered, decoder_to_buffer, readings_of, SensorDataBuffer};
use crate::dumping::{
    all_fit, dump_all, frames_of, lemma_one_row_per_frame, rows_written, DumpInput, DumperView,
};
use crate::frame::{
    lemma_key_injective, Frame, SensorId, TYPE_IDENTIFICATION, TYPE_LINEAR_RANGES,
};
use crate::serial::{fed, Decoder};
use vstd::prelude::*;

verus! {

/// Takes the bytes that the line brought at `now`: decodes them, hands the
/// frames that are now complete to the live view, and returns them for the
/// dumper. Both consumers get every frame, in the order of the line.
pub fn ingest(
    decoder: &mut Decoder,
    data_buffer: &mut SensorDataBuffer,
    data: &[u8],
    now: u64,
) -> (frames: Vec<Frame>)
    ensures
        (frames@, final(decoder)@) == fed(old(decoder)@, data@),
        final(data_buffer)@ == all_buffered(old(data_buffer)@, frames@, now),
{
    let frames = decoder.feed(data);
    decoder_to_buffer(&frames, data_buffer, now);
    frames
}

/// The frames of a run of dumper inputs, in their order.
pub open spec fn frames_in(inputs: Seq<DumpInput>) -> Seq<Frame> {
    inputs.map_values(|input: DumpInput| input.data)
}

/// Whether an ID is that of a sensor's readings, and not that under which
/// meta frames travel.
pub open spec fn is_data_sensor(id: SensorId) -> bool {
    id.sensor_type_id != TYPE_LINEAR_RANGES && id.sensor_type_id != TYPE_IDENTIFICATION
}

/// The frames that travel under the ID of a data sensor are the sensor's
/// readings.
pub proof fn lemma_frames_of_a_data_sensor_are_readings(inputs: Seq<DumpInput>, id: SensorId)
    requires
        is_data_sensor(id),
    ensures
        frames_of(inputs, id.spec_key()) == readings_of(frames_in(inputs), id).len(),
    decreases inputs.len(),
{
    if inputs.len() > 0 {
        lemma_frames_of_a_data_sensor_are_readings(inputs.drop_last(), id);
        let frame = inputs.last().data;
        assert(frames_in(inputs).drop_last() =~= frames_in(inputs.drop_last()));
        if frame.spec_sensor_id().spec_key() == id.spec_key() {
            lemma_key_injective(frame.spec_sensor_id(), id);
        }
    }
}

/// The dumper and the live view take the same readings of a sensor: of a
/// run of frames in which the host rendered every row, the file of a data
/// sensor gets one row for each reading of the sensor, which are the frames
/// that the ring of the sensor sees.
pub proof fn lemma_consumers_take_the_same_readings(
    state: DumperView,
    inputs: Seq<DumpInput>,
    id: SensorId,
)
    requires
        all_fit(state, inputs),
        is_data_sensor(id),
    ensures
        rows_written(dump_all(state, inputs).1, id.spec_key()) == readings_of(
            frames_in(inputs),
            id,
        ).len(),
{
    lemma_one_row_per_frame(state, inputs, id);
    lemma_frames_of_a_data_sensor_are_readings(inputs, id);
}

} // verus!
