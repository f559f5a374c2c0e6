use vstd::prelude::*;

verus! {

/// Per-camera settings of order-independent transparency.
#[derive(Clone, Copy)]
pub struct OrderIndependentTransparencySettings {
    layer_count: u8,
}

impl OrderIndependentTransparencySettings {
    /// The greatest number of transparent layers kept per pixel.
    pub closed spec fn spec_layer_count(&self) -> nat {
        self.layer_count as nat
    }

    pub fn new(layer_count: u8) -> (r: Self)
        ensures
            r.spec_layer_count() == layer_count,
    {
        OrderIndependentTransparencySettings { layer_count }
    }

    pub fn layer_count(&self) -> (r: u8)
        ensures
            r == self.spec_layer_count(),
    {
        self.layer_count
    }
}

impl Default for OrderIndependentTransparencySettings {
    /// Eight layers per pixel.
    fn default() -> (r: Self)
        ensures
            r.spec_layer_count() == 8,
    {
        OrderIndependentTransparencySettings { layer_count: 8 }
    }
}

/// What one camera asks of the shared buffers in the current frame.
#[derive(Clone, Copy)]
pub struct CameraRecord {
    /// Width and height of the render target in physical pixels; `None` when
    /// the camera targets nothing.
    pub physical_target_size: Option<(u32, u32)>,
    pub settings: OrderIndependentTransparencySettings,
    /// Whether the target size or the settings changed since the last frame.
    pub changed: bool,
}

/// The buffer lengths that the current frame needs.
#[derive(Clone, Copy)]
pub struct OitDemand {
    /// Length of the layer-index buffer: one slot per pixel.
    pub layer_ids: usize,
    /// Length of the layer-storage buffer: one record per pixel per layer.
    pub layers: usize,
}

pub open spec fn pixel_count(size: (u32, u32)) -> nat {
    size.0 as nat * size.1 as nat
}

/// A camera is taken into account when it changed and has a target.
pub open spec fn is_considered(c: CameraRecord) -> bool {
    c.changed && c.physical_target_size is Some
}

/// Layer-index slots that the camera needs this frame.
pub open spec fn index_demand(c: CameraRecord) -> nat {
    if is_considered(c) {
        pixel_count(c.physical_target_size->0)
    } else {
        0
    }
}

/// Layer records that the camera needs this frame.
pub open spec fn storage_demand(c: CameraRecord) -> nat {
    index_demand(c) * c.settings.spec_layer_count()
}

/// The largest index demand over the cameras (0 for none).
pub open spec fn max_index_demand(cams: Seq<CameraRecord>) -> nat
    decreases cams.len(),
{
    if cams.len() == 0 {
        0
    } else {
        let rest = max_index_demand(cams.drop_last());
        let d = index_demand(cams.last());
        if d > rest {
            d
        } else {
            rest
        }
    }
}

/// The largest storage demand over the cameras (0 for none).
pub open spec fn max_storage_demand(cams: Seq<CameraRecord>) -> nat
    decreases cams.len(),
{
    if cams.len() == 0 {
        0
    } else {
        let rest = max_storage_demand(cams.drop_last());
        let d = storage_demand(cams.last());
        if d > rest {
            d
        } else {
            rest
        }
    }
}

/// Every camera's demand can be held as a buffer length.
pub open spec fn demands_fit(cams: Seq<CameraRecord>) -> bool {
    forall|i: int|
        0 <= i < cams.len() ==> {
            &&& #[trigger] index_demand(cams[i]) <= usize::MAX
            &&& storage_demand(cams[i]) <= usize::MAX
        }
}

/// The maxima bound every camera's demand, and each is 0 or the demand of
/// some camera.
pub proof fn lemma_max_demand_bounds(cams: Seq<CameraRecord>)
    ensures
        forall|i: int|
            0 <= i < cams.len() ==> {
                &&& #[trigger] index_demand(cams[i]) <= max_index_demand(cams)
                &&& storage_demand(cams[i]) <= max_storage_demand(cams)
            },
        max_index_demand(cams) == 0 || exists|i: int|
            0 <= i < cams.len() && #[trigger] index_demand(cams[i]) == max_index_demand(cams),
        max_storage_demand(cams) == 0 || exists|i: int|
            0 <= i < cams.len() && #[trigger] storage_demand(cams[i]) == max_storage_demand(cams),
    decreases cams.len(),
{
    if cams.len() > 0 {
        let rest = cams.drop_last();
        lemma_max_demand_bounds(rest);
        assert forall|i: int| 0 <= i < rest.len() implies rest[i] == cams[i] by {}
        if max_index_demand(rest) != 0 && index_demand(cams.last()) <= max_index_demand(rest) {
            let j = choose|j: int|
                0 <= j < rest.len() && #[trigger] index_demand(rest[j]) == max_index_demand(rest);
            assert(index_demand(cams[j]) == max_index_demand(cams));
        }
        if max_storage_demand(rest) != 0 && storage_demand(cams.last()) <= max_storage_demand(
            rest,
        ) {
            let j = choose|j: int|
                0 <= j < rest.len() && #[trigger] storage_demand(rest[j]) == max_storage_demand(
                    rest,
                );
            assert(storage_demand(cams[j]) == max_storage_demand(cams));
        }
        assert(index_demand(cams[cams.len() - 1]) == index_demand(cams.last()));
    }
}

/// With no camera taken into account, nothing is needed.
pub proof fn lemma_no_considered_camera_no_demand(cams: Seq<CameraRecord>)
    requires
        forall|i: int| 0 <= i < cams.len() ==> !is_considered(#[trigger] cams[i]),
    ensures
        max_index_demand(cams) == 0,
        max_storage_demand(cams) == 0,
{
    lemma_max_demand_bounds(cams);
    if max_index_demand(cams) != 0 {
        let j = choose|j: int|
            0 <= j < cams.len() && #[trigger] index_demand(cams[j]) == max_index_demand(cams);
        assert(!is_considered(cams[j]));
    }
    if max_storage_demand(cams) != 0 {
        let j = choose|j: int|
            0 <= j < cams.len() && #[trigger] storage_demand(cams[j]) == max_storage_demand(cams);
        assert(!is_considered(cams[j]));
    }
}

/// The buffer lengths needed by the cameras that changed this frame: the
/// largest demand of any of them, not their sum.
pub fn oit_demand(cameras: &Vec<CameraRecord>) -> (r: OitDemand)
    requires
        demands_fit(cameras@),
    ensures
        r.layer_ids == max_index_demand(cameras@),
        r.layers == max_storage_demand(cameras@),
{
    let mut max_layer_ids_size: usize = 0;
    let mut max_layers_size: usize = 0;
    let mut i: usize = 0;
    while i < cameras.len()
        invariant
            i <= cameras@.len(),
            demands_fit(cameras@),
            max_layer_ids_size == max_index_demand(cameras@.take(i as int)),
            max_layers_size == max_storage_demand(cameras@.take(i as int)),
        decreases cameras@.len() - i,
    {
        let camera = cameras[i];
        assert(cameras@.take(i + 1).drop_last() == cameras@.take(i as int));
        assert(cameras@.take(i + 1).last() == camera);
        assert(index_demand(cameras@[i as int]) <= usize::MAX);
        if camera.changed {
            if let Some(size) = camera.physical_target_size {
                let layer_count = camera.settings.layer_count() as usize;
                let size = size.0 as usize * size.1 as usize;
                max_layer_ids_size = if size > max_layer_ids_size {
                    size
                } else {
                    max_layer_ids_size
                };
                let layers_size = size * layer_count;
                max_layers_size = if layers_size > max_layers_size {
                    layers_size
                } else {
                    max_layers_size
                };
            }
        }
        i = i + 1;
    }
    assert(cameras@.take(cameras@.len() as int) == cameras@);
    OitDemand { layer_ids: max_layer_ids_size, layers: max_layers_size }
}

} // verus!
