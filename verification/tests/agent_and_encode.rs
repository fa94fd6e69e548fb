use image_segmentation::align::round_up;
use image_segmentation::camera_table::CameraOutputTable;
use image_segmentation::components::{
    segmentation_camera_starts_active, toggle_segmentation_view, CameraDescription, RGBCamera,
    RenderTargetKind, SegmentationObject,
};
use image_segmentation::copy_agent::{CopyAction, ImageCopier, MapPoll};
use image_segmentation::encode::encode_images;

// Rounding a row size up to the device alignment.
#[test]
fn round_up_examples() {
    assert_eq!(round_up(300, 256), Some(512));
    assert_eq!(round_up(1024, 256), Some(1024));
    assert_eq!(round_up(0, 256), Some(0));
    assert_eq!(round_up(1, 256), Some(256));
    assert_eq!(round_up(usize::MAX, 2), None);
}

// The copy buffer is aligned_row_bytes * height: a 75-pixel row is 300
// bytes, padded to 512 under a 256-byte alignment.
#[test]
fn copy_buffer_is_padded() {
    let mut table = CameraOutputTable::default();
    let agent = table.create_render_target(String::from("A"), 75, 4);
    assert_eq!(agent.buffer_size(), Some(512 * 4));
}

// The agent's poll cycle: submit after a render, wait while the map is
// pending, send on completion; a failed map drops the frame and the agent
// is ready for the next one.
#[test]
fn copy_agent_poll_cycle() {
    let mut table = CameraOutputTable::default();
    table.preroll = 0;
    let mut agent = table.create_render_target(String::from("A"), 1, 1);

    match agent.step(MapPoll::Pending) {
        CopyAction::SubmitCopy { buffer_bytes } => assert_eq!(buffer_bytes, 256),
        _ => panic!("expected a copy submission"),
    }
    assert!(matches!(agent.step(MapPoll::Pending), CopyAction::Wait));
    assert!(matches!(agent.step(MapPoll::Ready), CopyAction::ReadAndSend));

    // The frame is read out of the mapped buffer and forwarded.
    let mut payload = vec![0u8; 256];
    payload[..4].copy_from_slice(&[4, 5, 6, 255]);
    assert!(agent.forward_frame(payload));
    table.update_camera_table();
    assert_eq!(table.images[0].data, vec![4, 5, 6, 255]);

    // The next cycle fails its map: the frame is dropped silently.
    assert!(matches!(agent.step(MapPoll::Pending), CopyAction::SubmitCopy { .. }));
    assert!(matches!(agent.step(MapPoll::Failed), CopyAction::DropFrame));
    table.update_camera_table();
    assert_eq!(table.images[0].data, vec![4, 5, 6, 255]);

    // The dropped frame has no effect on subsequent frames.
    assert!(matches!(agent.step(MapPoll::Pending), CopyAction::SubmitCopy { .. }));
    assert!(matches!(agent.step(MapPoll::Ready), CopyAction::ReadAndSend));
}

// Encoding produces a real PNG stream: decoding it recovers the exact
// pixels, so the encoder cannot have handed the buffer back unchanged.
#[test]
fn encode_images_round_trips_through_png() {
    let mut table = CameraOutputTable::default();
    table.preroll = 0;
    let agent = table.create_render_target(String::from("A"), 2, 2);
    let pixels: Vec<u8> = vec![
        255, 0, 0, 255, 0, 255, 0, 255, 0, 0, 255, 255, 10, 20, 30, 40,
    ];
    // A 2-pixel row is 8 bytes, padded to a 256-byte stride in the copy
    // buffer the agent sends.
    let mut payload = vec![0u8; 2 * 256];
    payload[..8].copy_from_slice(&pixels[..8]);
    payload[256..264].copy_from_slice(&pixels[8..]);
    assert!(agent.forward_frame(payload));
    table.update_camera_table();
    assert_eq!(table.images[0].data, pixels);

    let encoded = encode_images(&table);
    assert_eq!(encoded.len(), 1);
    let png = encoded[0].as_ref().expect("encoding a well-shaped image succeeds");
    assert_ne!(png, &pixels);
    let decoded = image::load_from_memory(png).expect("the stream is a valid PNG").to_rgba8();
    assert_eq!(decoded.width(), 2);
    assert_eq!(decoded.height(), 2);
    assert_eq!(decoded.into_raw(), pixels);
}

// A camera description derives its segmentation twin by suffixing the
// name and keeping the dimensions.
#[test]
fn segmentation_variant_suffixes_name() {
    let rgb = RGBCamera::new("front", 640, 480);
    let seg = rgb.0.segmentation_variant();
    assert_eq!(seg.name, "front_segmentation");
    assert_eq!(seg.width, 640);
    assert_eq!(seg.height, 480);
}

// The default camera description.
#[test]
fn default_camera_description() {
    let d = CameraDescription::default();
    assert_eq!(d.name, "Camera0");
    assert_eq!(d.width, 512);
    assert_eq!(d.height, 512);
}

// A label turns into a segmentation object and back.
#[test]
fn segmentation_object_from_label() {
    let o = SegmentationObject::from("ground");
    assert_eq!(o.0, "ground");
}

// Only a camera drawing to an off-screen image starts its segmentation
// twin active.
#[test]
fn segmentation_camera_activity() {
    assert!(segmentation_camera_starts_active(&RenderTargetKind::TargetImage));
    assert!(!segmentation_camera_starts_active(&RenderTargetKind::Window));
}

// The window-bound segmentation view follows the toggle key: active while
// held, restored to inactive on release; an image-bound camera is never
// toggled.
#[test]
fn toggle_view_follows_key() {
    let window = RenderTargetKind::Window;
    let image = RenderTargetKind::TargetImage;
    assert!(toggle_segmentation_view(&window, true, false, false));
    assert!(toggle_segmentation_view(&window, false, false, true));
    assert!(!toggle_segmentation_view(&window, false, true, true));
    assert!(!toggle_segmentation_view(&window, false, false, false));
    assert!(toggle_segmentation_view(&image, true, false, true));
    assert!(!toggle_segmentation_view(&image, true, false, false));
}

// The one well-shaped image the encoder refuses: a zero dimension. Every
// other full dense image must encode.
#[test]
fn encode_rejects_zero_dimension_only() {
    let mut table = CameraOutputTable::default();
    let _agent = table.create_render_target(String::from("empty"), 0, 4);
    let _other = table.create_render_target(String::from("real"), 1, 1);
    let encoded = encode_images(&table);
    assert_eq!(encoded.len(), 2);
    assert!(encoded[0].is_none());
    assert!(encoded[1].is_some());
}
