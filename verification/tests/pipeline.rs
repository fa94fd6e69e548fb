use image_segmentation::camera_table::{CameraOutputTable, DEFAULT_PREROLL};
use image_segmentation::destripe::destripe;

// Index alignment: after registrations and a re-registration, every camera
// name maps to exactly one slot, the parallel vectors stay the same
// length, and re-registering replaces the slot in place.
#[test]
fn registry_stays_index_aligned() {
    let mut table = CameraOutputTable::default();
    let _a = table.create_render_target(String::from("A"), 4, 4);
    let _b = table.create_render_target(String::from("B"), 8, 8);
    assert_eq!(table.camera_names.len(), 2);
    assert_eq!(table.images.len(), 2);
    assert_eq!(table.receivers.len(), 2);
    assert_eq!(table.camera_names[0], "A");
    assert_eq!(table.camera_names[1], "B");
    assert_eq!(table.images[0].width, 4);
    assert_eq!(table.images[1].width, 8);

    // Re-registering "A" keeps its slot and replaces its image.
    let _a2 = table.create_render_target(String::from("A"), 16, 2);
    assert_eq!(table.camera_names.len(), 2);
    assert_eq!(table.images.len(), 2);
    assert_eq!(table.receivers.len(), 2);
    assert_eq!(table.camera_names[0], "A");
    assert_eq!(table.images[0].width, 16);
    assert_eq!(table.images[0].height, 2);
    assert_eq!(table.images[1].width, 8);
}

// A fresh registry starts with the default preroll warm-up length.
#[test]
fn default_preroll_length() {
    let table = CameraOutputTable::default();
    assert_eq!(table.preroll, DEFAULT_PREROLL);
    assert_eq!(DEFAULT_PREROLL, 40);
}

// Last-value-wins: of three payloads sent between two ticks, only the most
// recent decides the dense image.
#[test]
fn last_value_wins() {
    let mut table = CameraOutputTable::default();
    table.preroll = 0;
    // One pixel: row_bytes = 4, aligned row stride = 256.
    let agent = table.create_render_target(String::from("A"), 1, 1);
    for marker in [1u8, 2, 3] {
        let mut payload = vec![0u8; 256];
        payload[0] = marker;
        payload[1] = marker;
        payload[2] = marker;
        payload[3] = 255;
        assert!(agent.forward_frame(payload));
    }
    table.update_camera_table();
    assert_eq!(table.images[0].data, vec![3u8, 3, 3, 255]);
}

// A tick that drains nothing keeps the previously materialized frame.
#[test]
fn stale_frame_persists() {
    let mut table = CameraOutputTable::default();
    table.preroll = 0;
    let agent = table.create_render_target(String::from("A"), 1, 1);
    let mut payload = vec![0u8; 256];
    payload[..4].copy_from_slice(&[9, 8, 7, 255]);
    assert!(agent.forward_frame(payload));
    table.update_camera_table();
    assert_eq!(table.images[0].data, vec![9, 8, 7, 255]);
    // Nothing sent before the next tick: the stored image is unchanged.
    table.update_camera_table();
    assert_eq!(table.images[0].data, vec![9, 8, 7, 255]);
}

// Preroll gating: for the first K ticks materialization never occurs even
// if frames are sent; from tick K+1 onward it resumes.
#[test]
fn preroll_gates_materialization() {
    let mut table = CameraOutputTable::default();
    table.preroll = 2;
    let agent = table.create_render_target(String::from("A"), 1, 1);
    let zeros = vec![0u8; 4];

    for expected_preroll_after in [1u32, 0] {
        let mut payload = vec![0u8; 256];
        payload[..4].copy_from_slice(&[5, 5, 5, 5]);
        assert!(agent.forward_frame(payload));
        table.update_camera_table();
        assert_eq!(table.preroll, expected_preroll_after);
        // The warm-up tick drained and discarded the frame.
        assert_eq!(table.images[0].data, zeros);
    }

    // The counter reached zero: the next frame materializes.
    let mut payload = vec![0u8; 256];
    payload[..4].copy_from_slice(&[5, 5, 5, 5]);
    assert!(agent.forward_frame(payload));
    table.update_camera_table();
    assert_eq!(table.preroll, 0);
    assert_eq!(table.images[0].data, vec![5, 5, 5, 5]);
}

// A frame discarded during warm-up is gone for good: it does not
// materialize after the warm-up either.
#[test]
fn warmup_frames_are_discarded() {
    let mut table = CameraOutputTable::default();
    table.preroll = 1;
    let agent = table.create_render_target(String::from("A"), 1, 1);
    let mut payload = vec![0u8; 256];
    payload[..4].copy_from_slice(&[1, 2, 3, 4]);
    assert!(agent.forward_frame(payload));
    table.update_camera_table();
    table.update_camera_table();
    assert_eq!(table.images[0].data, vec![0u8; 4]);
}

// Destripe round-trip: rowBytes = 300, alignedRowBytes = 320, height = 4;
// each row's first 300 bytes are a marker pattern and the trailing 20 are
// arbitrary padding. Destriping yields exactly the concatenated markers in
// row order.
#[test]
fn destripe_round_trip() {
    let row_bytes = 300usize;
    let aligned_row_bytes = 320usize;
    let height = 4u32;
    let mut payload = Vec::new();
    for row in 0..height {
        for col in 0..aligned_row_bytes {
            if col < row_bytes {
                payload.push((row as u8).wrapping_mul(31).wrapping_add(col as u8));
            } else {
                payload.push(0xAB);
            }
        }
    }
    let dense = destripe(&payload, row_bytes, aligned_row_bytes, height);
    assert_eq!(dense.len(), 4 * 300);
    for row in 0..height {
        for col in 0..row_bytes {
            assert_eq!(
                dense[row as usize * row_bytes + col],
                (row as u8).wrapping_mul(31).wrapping_add(col as u8)
            );
        }
    }
}

// A payload shorter than a full row grid is clipped, never read out of
// bounds: missing rows are simply absent and a partial row is truncated.
#[test]
fn destripe_clips_short_payloads() {
    // Two full rows of 3 would need 2 * 8 bytes; give 10: one full row and
    // a 2-byte tail of the second row's logical bytes.
    let payload: Vec<u8> = (0u8..10).collect();
    let dense = destripe(&payload, 3, 8, 2);
    assert_eq!(dense, vec![0, 1, 2, 8, 9]);
}

// Without padding the payload is stored verbatim.
#[test]
fn destripe_verbatim_when_unpadded() {
    let payload: Vec<u8> = (0u8..12).collect();
    let dense = destripe(&payload, 4, 4, 3);
    assert_eq!(dense, payload);
}

// End-to-end: a 256-by-256 camera with no preroll; one payload whose
// destripped form is all 0xFF materializes as 256*256*4 bytes of 0xFF
// after one tick. (A 1024-byte row is already aligned, so the payload
// carries no padding.)
#[test]
fn end_to_end_full_frame() {
    let mut table = CameraOutputTable::default();
    table.preroll = 0;
    let agent = table.create_render_target(String::from("A"), 256, 256);
    assert_eq!(table.images[0].data, vec![0u8; 256 * 256 * 4]);
    let payload = vec![0xFFu8; 256 * 256 * 4];
    assert!(agent.forward_frame(payload));
    table.update_camera_table();
    assert_eq!(table.images[0].data.len(), 256 * 256 * 4);
    assert!(table.images[0].data.iter().all(|&b| b == 0xFF));
}

// End-to-end: re-registering a camera with new dimensions before any frame
// was sent makes subsequent drains operate against the new dimensions, and
// orphans the old channel: frames sent on the superseded sender are never
// observed.
#[test]
fn end_to_end_reregistration_swaps_dimensions() {
    let mut table = CameraOutputTable::default();
    table.preroll = 0;
    let old_agent = table.create_render_target(String::from("A"), 256, 256);
    let new_agent = table.create_render_target(String::from("A"), 128, 128);
    assert_eq!(table.camera_names.len(), 1);
    assert_eq!(table.images[0].width, 128);
    assert_eq!(table.images[0].height, 128);

    // The superseded sender is orphaned: its channel reports the
    // disconnect, and the frame is dropped silently either way.
    assert!(!old_agent.forward_frame(vec![0x11u8; 256 * 256 * 4]));
    table.update_camera_table();
    assert_eq!(table.images[0].data, vec![0u8; 128 * 128 * 4]);

    // The new channel feeds the new dimensions.
    assert!(new_agent.forward_frame(vec![0x22u8; 128 * 128 * 4]));
    table.update_camera_table();
    assert_eq!(table.images[0].data, vec![0x22u8; 128 * 128 * 4]);
}

// A malformed (short) payload is clipped rather than failing the tick: the
// materialized bytes are the truncated rows, and encoding that slot fails
// without disturbing the tick or the other slots.
#[test]
fn malformed_payload_is_clipped() {
    let mut table = CameraOutputTable::default();
    table.preroll = 0;
    let agent = table.create_render_target(String::from("A"), 1, 1);
    let _other = table.create_render_target(String::from("B"), 1, 1);
    assert!(agent.forward_frame(vec![0x42u8; 2]));
    table.update_camera_table();
    assert_eq!(table.images[0].data, vec![0x42u8, 0x42]);
    let encoded = image_segmentation::encode::encode_images(&table);
    assert_eq!(encoded.len(), 2);
    assert!(encoded[0].is_none());
    assert!(encoded[1].is_some());
}
