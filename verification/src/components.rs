//! User-facing component types.
//!
//! A camera is described by a name and its render dimensions; the
//! segmentation pass derives its own camera description from it. An object
//! that should appear in the segmentation mask carries a class label.

use vstd::prelude::*;
use vstd::string::StringExecFns;

verus! {

/// Marks an entity whose segmentation twin has already been spawned.
pub struct SegmentationObjectParent;

/// The class label of an object that takes part in the segmentation pass.
pub struct SegmentationObject(pub String);

impl From<&str> for SegmentationObject {
    fn from(label: &str) -> (o: Self)
        ensures
            o.0@ == label@,
    {
        SegmentationObject(String::from_str(label))
    }
}

// A spec-level `String` cannot be built from a character sequence, so the
// conversion's result is stated on the impl itself rather than through
// `from_spec`.
impl vstd::std_specs::convert::FromSpecImpl<&str> for SegmentationObject {
    open spec fn obeys_from_spec() -> bool {
        false
    }

    open spec fn from_spec(label: &str) -> Self {
        arbitrary()
    }
}

/// A camera's registered name and render-target dimensions.
#[derive(Clone)]
pub struct CameraDescription {
    pub name: String,
    pub width: u32,
    pub height: u32,
}

impl CameraDescription {
    /// The description of the paired segmentation camera: the same
    /// dimensions under the name with a fixed suffix appended, so the two
    /// render passes can be registered side by side.
    pub fn segmentation_variant(&self) -> (d: CameraDescription)
        ensures
            d.name@ == self.name@ + "_segmentation"@,
            d.width == self.width,
            d.height == self.height,
    {
        let mut name = self.name.clone();
        name.append("_segmentation");
        CameraDescription { name, width: self.width, height: self.height }
    }
}

impl Default for CameraDescription {
    /// The fallback description: a 512-by-512 camera named "Camera0".
    fn default() -> (d: Self)
        ensures
            d.name@ == "Camera0"@,
            d.width == 512,
            d.height == 512,
    {
        CameraDescription { name: String::from_str("Camera0"), width: 512, height: 512 }
    }
}

/// The camera that renders the normal RGB view of the scene.
pub struct RGBCamera(pub CameraDescription);

impl RGBCamera {
    /// An RGB camera description under the given name and dimensions.
    pub fn new(name: &str, width: u32, height: u32) -> (c: Self)
        ensures
            c.0.name@ == name@,
            c.0.width == width,
            c.0.height == height,
    {
        RGBCamera(CameraDescription { name: String::from_str(name), width, height })
    }
}

impl Default for RGBCamera {
    /// An RGB camera with the default description.
    fn default() -> (c: Self)
        ensures
            c.0.name@ == "Camera0"@,
            c.0.width == 512,
            c.0.height == 512,
    {
        RGBCamera(CameraDescription::default())
    }
}

/// The hidden camera that renders the segmentation mask.
pub struct SegmentationCamera(pub CameraDescription);

impl Default for SegmentationCamera {
    /// A segmentation camera with the default description.
    fn default() -> (c: Self)
        ensures
            c.0.name@ == "Camera0"@,
            c.0.width == 512,
            c.0.height == 512,
    {
        SegmentationCamera(CameraDescription::default())
    }
}

/// The kinds of render target a camera can draw to: a closed union, so an
/// unsupported target is impossible to construct rather than silently
/// ignored.
pub enum RenderTargetKind {
    /// The camera draws into an off-screen image.
    TargetImage,
    /// The camera draws into an application window.
    Window,
}

/// The decision made when pairing a camera with its segmentation twin: a
/// camera drawing to an off-screen image gets a capture target of its own
/// and starts active; one drawing to a window keeps that window and starts
/// inactive, to be toggled by the user.
pub fn segmentation_camera_starts_active(kind: &RenderTargetKind) -> (active: bool)
    ensures
        active == (kind is TargetImage),
{
    match kind {
        RenderTargetKind::TargetImage => true,
        RenderTargetKind::Window => false,
    }
}

/// The decision behind the segmentation-view toggle: a window-bound
/// segmentation camera becomes active while the toggle key is held — it
/// activates on the press and deactivates on the release — and a camera
/// bound to a capture image is never toggled.
pub fn toggle_segmentation_view(
    kind: &RenderTargetKind,
    just_pressed: bool,
    just_released: bool,
    active: bool,
) -> (now_active: bool)
    ensures
        kind is Window ==> now_active == if just_pressed {
            true
        } else if just_released {
            false
        } else {
            active
        },
        kind is TargetImage ==> now_active == active,
{
    match kind {
        RenderTargetKind::Window => {
            if just_pressed {
                true
            } else if just_released {
                false
            } else {
                active
            }
        },
        RenderTargetKind::TargetImage => active,
    }
}

} // verus!
