use oit_buffers::{
    grow_buffer, oit_demand, prepare_oit_buffers, CameraRecord, GrowableBuffer, OitBuffers,
    OrderIndependentTransparencySettings,
};

fn camera(width: u32, height: u32, layer_count: u8) -> CameraRecord {
    CameraRecord {
        physical_target_size: Some((width, height)),
        settings: OrderIndependentTransparencySettings::new(layer_count),
        changed: true,
    }
}

fn capacities(b: &OitBuffers) -> (usize, usize) {
    (b.layer_ids.capacity(), b.layers.capacity())
}

#[test]
fn initial_buffers_are_empty_and_bindable() {
    let b = OitBuffers::new();
    assert_eq!(capacities(&b), (0, 0));
    assert_eq!(b.layers.len(), 0);
    assert_eq!(b.layer_ids.len(), 0);
    assert!(b.layers.is_uploaded());
    assert!(b.layer_ids.is_uploaded());
}

#[test]
fn default_settings_keep_eight_layers() {
    let s = OrderIndependentTransparencySettings::default();
    assert_eq!(s.layer_count(), 8);
    assert_eq!(OrderIndependentTransparencySettings::new(3).layer_count(), 3);
}

#[test]
fn single_camera_sizing() {
    let mut b = OitBuffers::new();
    let g = prepare_oit_buffers(&mut b, &vec![camera(640, 480, 4)]);
    assert!(g.layers_grown);
    assert!(g.layer_ids_grown);
    assert_eq!(capacities(&b), (640 * 480, 640 * 480 * 4));
    assert_eq!(b.layer_ids.len(), 640 * 480);
    assert_eq!(b.layers.len(), 640 * 480 * 4);
    assert!(b.layers.is_uploaded());
    assert!(b.layer_ids.is_uploaded());
}

#[test]
fn grown_buffers_are_zero_filled() {
    let mut b = OitBuffers::new();
    prepare_oit_buffers(&mut b, &vec![camera(3, 2, 2)]);
    assert_eq!(b.layer_ids.values(), &vec![0i32; 6]);
    assert_eq!(b.layers.values(), &vec![(0u32, 0u32); 12]);
}

#[test]
fn demand_is_the_max_not_the_sum() {
    let cams = vec![camera(100, 100, 8), camera(50, 50, 16)];
    let d = oit_demand(&cams);
    assert_eq!(d.layer_ids, 10000);
    assert_eq!(d.layers, 80000);

    let mut b = OitBuffers::new();
    prepare_oit_buffers(&mut b, &cams);
    assert_eq!(capacities(&b), (10000, 80000));
    assert_ne!(b.layer_ids.capacity(), 12500);
    assert_ne!(b.layers.capacity(), 120000);
}

#[test]
fn storage_max_may_come_from_another_camera() {
    let cams = vec![camera(100, 100, 1), camera(50, 50, 16)];
    let d = oit_demand(&cams);
    assert_eq!(d.layer_ids, 10000);
    assert_eq!(d.layers, 40000);
}

#[test]
fn smaller_demand_never_shrinks() {
    let mut b = OitBuffers::new();
    prepare_oit_buffers(&mut b, &vec![camera(200, 100, 8)]);
    assert_eq!(capacities(&b), (20000, 160000));
    let g = prepare_oit_buffers(&mut b, &vec![camera(10, 10, 2)]);
    assert!(!g.layers_grown);
    assert!(!g.layer_ids_grown);
    assert_eq!(capacities(&b), (20000, 160000));
    assert_eq!(b.layers.len(), 160000);
}

#[test]
fn unchanged_cameras_do_no_work() {
    let mut b = OitBuffers::new();
    prepare_oit_buffers(&mut b, &vec![camera(8, 8, 8)]);
    let before_ids = b.layer_ids.values().clone();
    let before_layers = b.layers.values().clone();

    let mut stale = camera(1000, 1000, 8);
    stale.changed = false;
    let g = prepare_oit_buffers(&mut b, &vec![stale]);
    assert!(!g.layers_grown);
    assert!(!g.layer_ids_grown);
    assert_eq!(capacities(&b), (64, 512));
    assert_eq!(b.layer_ids.values(), &before_ids);
    assert_eq!(b.layers.values(), &before_layers);
}

#[test]
fn index_buffer_grows_alone() {
    let mut b = OitBuffers::new();
    prepare_oit_buffers(&mut b, &vec![camera(100, 100, 8)]);
    assert_eq!(capacities(&b), (10000, 80000));
    // More pixels, fewer layers: the storage maximum stays below 80000.
    let g = prepare_oit_buffers(&mut b, &vec![camera(200, 100, 2)]);
    assert!(g.layer_ids_grown);
    assert!(!g.layers_grown);
    assert_eq!(capacities(&b), (20000, 80000));
}

#[test]
fn no_active_camera_changes_nothing() {
    let mut b = OitBuffers::new();
    prepare_oit_buffers(&mut b, &vec![camera(10, 10, 8)]);
    let g = prepare_oit_buffers(&mut b, &vec![]);
    assert!(!g.layers_grown && !g.layer_ids_grown);
    assert_eq!(capacities(&b), (100, 800));

    let mut untargeted = camera(10, 10, 8);
    untargeted.physical_target_size = None;
    let g = prepare_oit_buffers(&mut b, &vec![untargeted]);
    assert!(!g.layers_grown && !g.layer_ids_grown);
    assert_eq!(capacities(&b), (100, 800));
}

#[test]
fn empty_frame_on_fresh_buffers() {
    let mut b = OitBuffers::new();
    let d = oit_demand(&vec![]);
    assert_eq!((d.layer_ids, d.layers), (0, 0));
    prepare_oit_buffers(&mut b, &vec![]);
    assert_eq!(capacities(&b), (0, 0));
    assert!(b.layers.is_uploaded());
}

#[test]
fn untargeted_camera_is_skipped() {
    let mut untargeted = camera(4000, 4000, 64);
    untargeted.physical_target_size = None;
    let d = oit_demand(&vec![untargeted, camera(2, 3, 5)]);
    assert_eq!((d.layer_ids, d.layers), (6, 30));
}

#[test]
fn zero_sized_demands_need_nothing() {
    let d = oit_demand(&vec![camera(0, 480, 8), camera(640, 480, 0)]);
    assert_eq!((d.layer_ids, d.layers), (640 * 480, 0));
}

#[test]
fn second_identical_frame_is_a_no_op() {
    let mut b = OitBuffers::new();
    let cams = vec![camera(33, 17, 5)];
    prepare_oit_buffers(&mut b, &cams);
    let g = prepare_oit_buffers(&mut b, &cams);
    assert!(!g.layers_grown && !g.layer_ids_grown);
    assert_eq!(capacities(&b), (33 * 17, 33 * 17 * 5));
}

#[test]
fn grow_buffer_appends_zeros_and_uploads() {
    let mut buf: GrowableBuffer<i32> = GrowableBuffer::new();
    buf.upload();
    assert!(grow_buffer(&mut buf, 3, 7));
    assert_eq!(buf.values(), &vec![7, 7, 7]);
    assert_eq!(buf.capacity(), 3);
    assert!(buf.is_uploaded());
    assert!(!grow_buffer(&mut buf, 2, 9));
    assert_eq!(buf.values(), &vec![7, 7, 7]);
    assert!(grow_buffer(&mut buf, 5, 1));
    assert_eq!(buf.values(), &vec![7, 7, 7, 1, 1]);
    assert_eq!(buf.get(4), 1);
}

#[test]
fn growable_buffer_primitives() {
    let mut buf: GrowableBuffer<u8> = GrowableBuffer::new();
    assert!(!buf.is_uploaded());
    buf.reserve(4);
    assert_eq!(buf.capacity(), 4);
    buf.reserve(2);
    assert_eq!(buf.capacity(), 4);
    buf.upload();
    assert!(buf.is_uploaded());
    buf.push(5);
    assert!(!buf.is_uploaded());
    assert_eq!(buf.len(), 1);
    buf.upload();
    assert_eq!(buf.capacity(), 4);
    for v in 0..5u8 {
        buf.push(v);
    }
    buf.upload();
    assert_eq!(buf.capacity(), 6);
    assert_eq!(buf.len(), 6);
}
