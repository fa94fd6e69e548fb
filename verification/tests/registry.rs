use image_segmentation::color::Rgba;
use image_segmentation::object_table::SegmentationDataTable;

// Registering labels yields ids 1 and 2 (index 0 is the reserved
// background entry), and a repeated label returns its existing id.
#[test]
fn label_ids_are_stable_and_start_after_background() {
    let mut table = SegmentationDataTable::default();
    let ground = table.label_id(String::from("ground"));
    let cube = table.label_id(String::from("cube"));
    let ground_again = table.label_id(String::from("ground"));
    assert_eq!(ground, 1);
    assert_eq!(cube, 2);
    assert_eq!(ground_again, 1);
}

// Repeated color lookups of one label agree; different labels get
// different colors, and both differ from the reserved background color.
#[test]
fn label_colors_are_injective() {
    let mut table = SegmentationDataTable::default();
    let ground_a = table.color_of_object_assertive(String::from("ground"));
    let cube = table.color_of_object_assertive(String::from("cube"));
    let ground_b = table.color_of_object_assertive(String::from("ground"));
    let background = Rgba::background();
    assert_eq!(ground_a, ground_b);
    assert_ne!(ground_a, cube);
    assert_ne!(ground_a, background);
    assert_ne!(cube, background);
}

// The reserved entry sits at index 0 under the label "other" with the
// fully transparent color, and is never reassigned by new registrations.
#[test]
fn background_entry_is_reserved() {
    let mut table = SegmentationDataTable::default();
    assert_eq!(table.index_of_label(&String::from("other")), Some(0));
    assert_eq!(table.index_of_color(&Rgba::background()), Some(0));
    table.label_id(String::from("ground"));
    assert_eq!(table.index_of_label(&String::from("other")), Some(0));
    assert_eq!(table.index_of_color(&Rgba::background()), Some(0));
}

// A freshly drawn color is opaque and collides with no assigned color.
#[test]
fn new_color_avoids_assigned_colors() {
    let mut table = SegmentationDataTable::default();
    table.label_id(String::from("ground"));
    table.label_id(String::from("cube"));
    let c = table.new_color();
    assert_eq!(c.a, 255);
    assert_eq!(table.index_of_color(&c), None);
}

// An unknown label has no index; an unseen color has no index.
#[test]
fn unknown_label_and_color_are_absent() {
    let table = SegmentationDataTable::default();
    assert_eq!(table.index_of_label(&String::from("ground")), None);
    let opaque_black = Rgba { r: 0, g: 0, b: 0, a: 255 };
    assert_eq!(table.index_of_color(&opaque_black), None);
}

// Random colors are always fully opaque.
#[test]
fn random_colors_are_opaque() {
    for _ in 0..32 {
        let c = image_segmentation::color::random_color();
        assert_eq!(c.a, 255);
    }
}
