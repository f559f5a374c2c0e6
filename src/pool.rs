use vstd::prelude::*;

use crate::buffer::GrowableBuffer;
use crate::demand::{
    demands_fit,
    index_demand,
    lemma_max_demand_bounds,
    lemma_no_considered_camera_no_demand,
    max_index_demand,
    max_storage_demand,
    oit_demand,
    pixel_count,
    storage_demand,
    CameraRecord,
};

verus! {

/// The buffer pair shared by every camera.
pub struct OitBuffers {
    /// One record (two 32-bit words) per pixel per layer.
    pub layers: GrowableBuffer<(u32, u32)>,
    /// One slot per pixel.
    pub layer_ids: GrowableBuffer<i32>,
}

/// Which buffers a frame grew, and so reallocated and uploaded anew.
#[derive(Clone, Copy)]
pub struct OitGrowth {
    pub layers_grown: bool,
    pub layer_ids_grown: bool,
}

/// Both buffers are bindable.
pub open spec fn buffers_ready(b: OitBuffers) -> bool {
    b.layers.is_ready() && b.layer_ids.is_ready()
}

/// `new` is `old` grown to hold `required` elements, the added ones
/// `zero`; a buffer that already holds as many is left alone.
pub open spec fn grown_to<T: Copy>(
    old: GrowableBuffer<T>,
    new: GrowableBuffer<T>,
    required: nat,
    zero: T,
) -> bool {
    if required <= old.spec_capacity() {
        new == old
    } else {
        &&& new.spec_capacity() == required
        &&& new.spec_values() == old.spec_values() + Seq::new(
            (required - old.spec_capacity()) as nat,
            |_i: int| zero,
        )
        &&& new.spec_uploaded()
    }
}

/// `new` is `old` after the frame whose cameras are `cams`.
pub open spec fn prepared(old: OitBuffers, new: OitBuffers, cams: Seq<CameraRecord>) -> bool {
    &&& grown_to(old.layers, new.layers, max_storage_demand(cams), (0u32, 0u32))
    &&& grown_to(old.layer_ids, new.layer_ids, max_index_demand(cams), 0i32)
}

impl OitBuffers {
    /// Both buffers, empty, allocated to the minimum and uploaded, so that
    /// there is something valid to bind before any camera is seen.
    pub fn new() -> (r: Self)
        ensures
            buffers_ready(r),
            r.layers.spec_capacity() == 0,
            r.layer_ids.spec_capacity() == 0,
            r.layers.spec_values().len() == 0,
            r.layer_ids.spec_values().len() == 0,
    {
        let mut layers = GrowableBuffer::new();
        layers.reserve(0);
        layers.upload();

        let mut layer_ids = GrowableBuffer::new();
        layer_ids.reserve(0);
        layer_ids.upload();

        OitBuffers { layers, layer_ids }
    }
}

/// Grows a bindable buffer to `required` elements where it holds fewer:
/// reserves the room, fills it with `zero` and uploads the whole buffer.
/// Returns whether it grew.
pub fn grow_buffer<T: Copy>(buffer: &mut GrowableBuffer<T>, required: usize, zero: T) -> (grown:
    bool)
    requires
        old(buffer).is_ready(),
    ensures
        grown == (required > old(buffer).spec_capacity()),
        grown_to(*old(buffer), *final(buffer), required as nat, zero),
        final(buffer).is_ready(),
{
    if buffer.capacity() < required {
        let ghost start = buffer.spec_values();
        let old_capacity = buffer.capacity();
        buffer.reserve(required);
        let remaining = buffer.capacity() - old_capacity;
        let mut i: usize = 0;
        while i < remaining
            invariant
                i <= remaining,
                remaining == required - old_capacity,
                start.len() == old_capacity,
                buffer.spec_capacity() == required,
                buffer.spec_values() == start + Seq::new(i as nat, |_i: int| zero),
            decreases remaining - i,
        {
            buffer.push(zero);
            i = i + 1;
            assert(buffer.spec_values() =~= start + Seq::new(i as nat, |_i: int| zero));
        }
        buffer.upload();
        true
    } else {
        false
    }
}

/// Sizes the shared buffers for this frame's cameras: each buffer grows to
/// the largest demand of any camera that changed, where it is smaller; it
/// never shrinks, and a buffer that is large enough is not touched.
pub fn prepare_oit_buffers(buffers: &mut OitBuffers, cameras: &Vec<CameraRecord>) -> (r:
    OitGrowth)
    requires
        buffers_ready(*old(buffers)),
        demands_fit(cameras@),
    ensures
        buffers_ready(*final(buffers)),
        prepared(*old(buffers), *final(buffers), cameras@),
        r.layers_grown == (max_storage_demand(cameras@) > old(buffers).layers.spec_capacity()),
        r.layer_ids_grown == (max_index_demand(cameras@) > old(
            buffers,
        ).layer_ids.spec_capacity()),
{
    let demand = oit_demand(cameras);
    let layers_grown = grow_buffer(&mut buffers.layers, demand.layers, (0u32, 0u32));
    let layer_ids_grown = grow_buffer(&mut buffers.layer_ids, demand.layer_ids, 0i32);
    OitGrowth { layers_grown, layer_ids_grown }
}

/// After a frame, every camera that changed and has a target fits in both
/// buffers: its pixel count in the layer-index buffer and its pixel count
/// times its layer count in the layer-storage buffer.
pub proof fn lemma_prepared_covers_every_camera(
    old: OitBuffers,
    new: OitBuffers,
    cams: Seq<CameraRecord>,
)
    requires
        prepared(old, new, cams),
    ensures
        forall|i: int|
            0 <= i < cams.len() ==> {
                &&& new.layer_ids.spec_capacity() >= #[trigger] index_demand(cams[i])
                &&& new.layers.spec_capacity() >= storage_demand(cams[i])
            },
{
    lemma_max_demand_bounds(cams);
}

/// One camera of `w` by `h` pixels and `l` layers: after the frame the
/// layer-index buffer holds at least `w * h` elements and the layer-storage
/// buffer at least `w * h * l`.
pub proof fn lemma_single_camera_sizing(old: OitBuffers, new: OitBuffers, cam: CameraRecord)
    requires
        prepared(old, new, seq![cam]),
        cam.changed,
        cam.physical_target_size is Some,
    ensures
        new.layer_ids.spec_capacity() >= pixel_count(cam.physical_target_size->0),
        new.layers.spec_capacity() >= pixel_count(cam.physical_target_size->0)
            * cam.settings.spec_layer_count(),
{
    lemma_prepared_covers_every_camera(old, new, seq![cam]);
    assert(seq![cam][0] == cam);
}

/// A frame never shrinks a buffer, and keeps what it held.
pub proof fn lemma_prepare_never_shrinks(
    old: OitBuffers,
    new: OitBuffers,
    cams: Seq<CameraRecord>,
)
    requires
        prepared(old, new, cams),
    ensures
        new.layers.spec_capacity() >= old.layers.spec_capacity(),
        new.layer_ids.spec_capacity() >= old.layer_ids.spec_capacity(),
        new.layers.spec_values().take(old.layers.spec_values().len() as int)
            == old.layers.spec_values(),
        new.layer_ids.spec_values().take(old.layer_ids.spec_values().len() as int)
            == old.layer_ids.spec_values(),
{
    let layers = old.layers.spec_values();
    let ids = old.layer_ids.spec_values();
    if max_storage_demand(cams) > old.layers.spec_capacity() {
        let n = (max_storage_demand(cams) - old.layers.spec_capacity()) as nat;
        let added = Seq::new(n, |_i: int| (0u32, 0u32));
        assert((layers + added).take(layers.len() as int) =~= layers);
    } else {
        assert(layers.take(layers.len() as int) =~= layers);
    }
    if max_index_demand(cams) > old.layer_ids.spec_capacity() {
        let n = (max_index_demand(cams) - old.layer_ids.spec_capacity()) as nat;
        let added = Seq::new(n, |_i: int| 0i32);
        assert((ids + added).take(ids.len() as int) =~= ids);
    } else {
        assert(ids.take(ids.len() as int) =~= ids);
    }
}

/// A frame whose demand the buffers already meet (in particular one that
/// asks less than an earlier frame did) leaves both buffers exactly as they
/// were.
pub proof fn lemma_met_demand_changes_nothing(
    old: OitBuffers,
    new: OitBuffers,
    cams: Seq<CameraRecord>,
)
    requires
        prepared(old, new, cams),
        max_index_demand(cams) <= old.layer_ids.spec_capacity(),
        max_storage_demand(cams) <= old.layers.spec_capacity(),
    ensures
        new == old,
{
}

/// A frame in which no camera changed leaves both buffers exactly as they
/// were: nothing is reallocated or uploaded.
pub proof fn lemma_unchanged_cameras_change_nothing(
    old: OitBuffers,
    new: OitBuffers,
    cams: Seq<CameraRecord>,
)
    requires
        prepared(old, new, cams),
        forall|i: int| 0 <= i < cams.len() ==> !(#[trigger] cams[i]).changed,
    ensures
        new == old,
{
    lemma_no_considered_camera_no_demand(cams);
}

/// A frame with no active camera (none has a target) leaves both buffers
/// exactly as they were.
pub proof fn lemma_no_active_camera_changes_nothing(
    old: OitBuffers,
    new: OitBuffers,
    cams: Seq<CameraRecord>,
)
    requires
        prepared(old, new, cams),
        forall|i: int| 0 <= i < cams.len() ==> (#[trigger] cams[i]).physical_target_size is None,
    ensures
        new == old,
{
    lemma_no_considered_camera_no_demand(cams);
}

/// The two buffers grow on their own: a buffer whose demand is met is left
/// as it was, whatever happens to the other.
pub proof fn lemma_buffers_grow_independently(
    old: OitBuffers,
    new: OitBuffers,
    cams: Seq<CameraRecord>,
)
    requires
        prepared(old, new, cams),
    ensures
        max_storage_demand(cams) <= old.layers.spec_capacity() ==> new.layers == old.layers,
        max_index_demand(cams) <= old.layer_ids.spec_capacity() ==> new.layer_ids
            == old.layer_ids,
{
}

/// Running a frame twice on the same cameras does no more than running it
/// once: the second run changes nothing.
pub proof fn lemma_prepare_is_idempotent(
    b0: OitBuffers,
    b1: OitBuffers,
    b2: OitBuffers,
    cams: Seq<CameraRecord>,
)
    requires
        prepared(b0, b1, cams),
        prepared(b1, b2, cams),
    ensures
        b2 == b1,
{
}

} // verus!
