use vstd::prelude::*;

use core::cmp::Ordering;
use vstd::std_specs::cmp::PartialOrdSpecImpl;

use crate::control::{
    CameraControl, CameraControlView, KnownCameraControls, control_rank,
    lemma_controls_ranked_as_declared,
};
use crate::format::Resolution;
use crate::info::{CameraInfo, CameraInfoView};

verus! {

/// The opposite of an order.
pub open spec fn reversed(o: Ordering) -> Ordering {
    match o {
        Ordering::Less => Ordering::Greater,
        Ordering::Equal => Ordering::Equal,
        Ordering::Greater => Ordering::Less,
    }
}

/// The order of resolutions, from highest to lowest: the wider one comes first, and of two
/// equally wide ones the taller one.
pub open spec fn resolution_order(a: Resolution, b: Resolution) -> Ordering {
    if a.width_x > b.width_x {
        Ordering::Less
    } else if a.width_x < b.width_x {
        Ordering::Greater
    } else if a.height_y > b.height_y {
        Ordering::Less
    } else if a.height_y < b.height_y {
        Ordering::Greater
    } else {
        Ordering::Equal
    }
}

/// The order of camera information: by index alone.
pub open spec fn camera_info_order(a: CameraInfoView, b: CameraInfoView) -> Ordering {
    if a.index < b.index {
        Ordering::Less
    } else if a.index == b.index {
        Ordering::Equal
    } else {
        Ordering::Greater
    }
}

/// The order of camera controls: by the position of their control in the list of known
/// controls alone.
pub open spec fn camera_control_order(a: CameraControlView, b: CameraControlView) -> Ordering {
    if control_rank(a.control) < control_rank(b.control) {
        Ordering::Less
    } else if control_rank(a.control) == control_rank(b.control) {
        Ordering::Equal
    } else {
        Ordering::Greater
    }
}

impl Resolution {
    /// Compares two resolutions, highest first: the wider one is `Less`, and of two equally
    /// wide ones the taller one.
    pub fn cmp(&self, other: &Self) -> (o: Ordering)
        ensures
            o == resolution_order(*self, *other),
    {
        if self.width_x > other.width_x {
            Ordering::Less
        } else if self.width_x < other.width_x {
            Ordering::Greater
        } else if self.height_y > other.height_y {
            Ordering::Less
        } else if self.height_y < other.height_y {
            Ordering::Greater
        } else {
            Ordering::Equal
        }
    }
}

impl PartialOrd for Resolution {
    fn partial_cmp(&self, other: &Self) -> (o: Option<Ordering>) {
        Some(self.cmp(other))
    }
}

impl PartialOrdSpecImpl for Resolution {
    open spec fn obeys_partial_cmp_spec() -> bool {
        true
    }

    open spec fn partial_cmp_spec(&self, other: &Self) -> Option<Ordering> {
        Some(resolution_order(*self, *other))
    }
}

impl CameraInfo {
    /// Compares two camera informations by their index alone.
    pub fn cmp(&self, other: &Self) -> (o: Ordering)
        ensures
            o == camera_info_order(self@, other@),
    {
        let a = *self.index();
        let b = *other.index();
        if a < b {
            Ordering::Less
        } else if a == b {
            Ordering::Equal
        } else {
            Ordering::Greater
        }
    }
}

impl PartialOrd for CameraInfo {
    fn partial_cmp(&self, other: &Self) -> (o: Option<Ordering>) {
        Some(self.cmp(other))
    }
}

impl PartialOrdSpecImpl for CameraInfo {
    open spec fn obeys_partial_cmp_spec() -> bool {
        true
    }

    open spec fn partial_cmp_spec(&self, other: &Self) -> Option<Ordering> {
        Some(camera_info_order(self@, other@))
    }
}

impl CameraControl {
    /// Compares two camera controls by their control alone, in the order of the list of known
    /// controls.
    pub fn cmp(&self, other: &Self) -> (o: Ordering)
        ensures
            o == camera_control_order(self@, other@),
    {
        let a = self.control().rank();
        let b = other.control().rank();
        if a < b {
            Ordering::Less
        } else if a == b {
            Ordering::Equal
        } else {
            Ordering::Greater
        }
    }
}

impl PartialOrd for CameraControl {
    fn partial_cmp(&self, other: &Self) -> (o: Option<Ordering>) {
        Some(self.cmp(other))
    }
}

impl PartialOrdSpecImpl for CameraControl {
    open spec fn obeys_partial_cmp_spec() -> bool {
        true
    }

    open spec fn partial_cmp_spec(&self, other: &Self) -> Option<Ordering> {
        Some(camera_control_order(self@, other@))
    }
}

/// Resolutions are ordered from highest to lowest: `a` comes before `b` exactly when it is
/// wider, or as wide and taller.
pub proof fn lemma_resolution_highest_first(a: Resolution, b: Resolution)
    ensures
        resolution_order(a, b) == Ordering::Less <==> (a.width_x > b.width_x || (a.width_x
            == b.width_x && a.height_y > b.height_y)),
{
}

/// Comparing two resolutions the other way round gives the opposite order.
pub proof fn lemma_resolution_order_reverses(a: Resolution, b: Resolution)
    ensures
        resolution_order(a, b) == reversed(resolution_order(b, a)),
{
}

/// Two resolutions compare as equal exactly when they are equal.
pub proof fn lemma_resolution_order_equal(a: Resolution, b: Resolution)
    ensures
        resolution_order(a, b) == Ordering::Equal <==> a == b,
{
}

/// The order of resolutions is transitive.
pub proof fn lemma_resolution_order_transitive(a: Resolution, b: Resolution, c: Resolution)
    ensures
        resolution_order(a, b) == Ordering::Less && resolution_order(b, c) == Ordering::Less
            ==> resolution_order(a, c) == Ordering::Less,
        resolution_order(a, b) != Ordering::Greater && resolution_order(b, c) != Ordering::Greater
            ==> resolution_order(a, c) != Ordering::Greater,
{
}

/// Comparing two camera informations the other way round gives the opposite order.
pub proof fn lemma_camera_info_order_reverses(a: CameraInfoView, b: CameraInfoView)
    ensures
        camera_info_order(a, b) == reversed(camera_info_order(b, a)),
{
}

/// A camera information comes first exactly when its index is smaller.
pub proof fn lemma_camera_info_lower_index_first(a: CameraInfoView, b: CameraInfoView)
    ensures
        camera_info_order(a, b) == Ordering::Less <==> a.index < b.index,
        camera_info_order(a, b) == Ordering::Greater <==> a.index > b.index,
{
}

/// A camera control comes first exactly when its control ranks lower in the list of known
/// controls.
pub proof fn lemma_camera_control_lower_rank_first(a: CameraControlView, b: CameraControlView)
    ensures
        camera_control_order(a, b) == Ordering::Less <==> control_rank(a.control) < control_rank(
            b.control,
        ),
        camera_control_order(a, b) == Ordering::Greater <==> control_rank(a.control)
            > control_rank(b.control),
{
}

/// Two camera informations compare as equal exactly when their indices are equal, whatever
/// their names.
pub proof fn lemma_camera_info_order_equal(a: CameraInfoView, b: CameraInfoView)
    ensures
        camera_info_order(a, b) == Ordering::Equal <==> a.index == b.index,
{
}

/// The order of camera informations is transitive.
pub proof fn lemma_camera_info_order_transitive(
    a: CameraInfoView,
    b: CameraInfoView,
    c: CameraInfoView,
)
    ensures
        camera_info_order(a, b) == Ordering::Less && camera_info_order(b, c) == Ordering::Less
            ==> camera_info_order(a, c) == Ordering::Less,
        camera_info_order(a, b) != Ordering::Greater && camera_info_order(b, c)
            != Ordering::Greater ==> camera_info_order(a, c) != Ordering::Greater,
{
}

/// Comparing two camera controls the other way round gives the opposite order.
pub proof fn lemma_camera_control_order_reverses(a: CameraControlView, b: CameraControlView)
    ensures
        camera_control_order(a, b) == reversed(camera_control_order(b, a)),
{
}

/// Two camera controls compare as equal exactly when they are about the same control,
/// whatever their values.
pub proof fn lemma_camera_control_order_equal(a: CameraControlView, b: CameraControlView)
    ensures
        camera_control_order(a, b) == Ordering::Equal <==> a.control == b.control,
{
}

/// The order of camera controls is transitive.
pub proof fn lemma_camera_control_order_transitive(
    a: CameraControlView,
    b: CameraControlView,
    c: CameraControlView,
)
    ensures
        camera_control_order(a, b) == Ordering::Less && camera_control_order(b, c)
            == Ordering::Less ==> camera_control_order(a, c) == Ordering::Less,
        camera_control_order(a, b) != Ordering::Greater && camera_control_order(b, c)
            != Ordering::Greater ==> camera_control_order(a, c) != Ordering::Greater,
{
}

/// Camera controls are ordered as [`KnownCameraControls`] lists their controls: a control of
/// one kind comes before a control of the next kind in the list.
pub proof fn lemma_camera_controls_ordered_as_declared(a: CameraControlView, b: CameraControlView)
    ensures
        a.control == KnownCameraControls::Brightness && b.control == KnownCameraControls::Contrast
            ==> camera_control_order(a, b) == Ordering::Less,
        a.control == KnownCameraControls::Contrast && b.control == KnownCameraControls::Hue
            ==> camera_control_order(a, b) == Ordering::Less,
        a.control == KnownCameraControls::Hue && b.control == KnownCameraControls::Saturation
            ==> camera_control_order(a, b) == Ordering::Less,
        a.control == KnownCameraControls::Saturation && b.control == KnownCameraControls::Sharpness
            ==> camera_control_order(a, b) == Ordering::Less,
        a.control == KnownCameraControls::Sharpness && b.control == KnownCameraControls::Gamma
            ==> camera_control_order(a, b) == Ordering::Less,
        a.control == KnownCameraControls::Gamma && b.control == KnownCameraControls::ColorEnable
            ==> camera_control_order(a, b) == Ordering::Less,
        a.control == KnownCameraControls::ColorEnable && b.control == KnownCameraControls::WhiteBalance
            ==> camera_control_order(a, b) == Ordering::Less,
        a.control == KnownCameraControls::WhiteBalance && b.control == KnownCameraControls::BacklightComp
            ==> camera_control_order(a, b) == Ordering::Less,
        a.control == KnownCameraControls::BacklightComp && b.control == KnownCameraControls::Gain
            ==> camera_control_order(a, b) == Ordering::Less,
        a.control == KnownCameraControls::Gain && b.control == KnownCameraControls::Pan
            ==> camera_control_order(a, b) == Ordering::Less,
        a.control == KnownCameraControls::Pan && b.control == KnownCameraControls::Tilt
            ==> camera_control_order(a, b) == Ordering::Less,
        a.control == KnownCameraControls::Tilt && b.control == KnownCameraControls::Roll
            ==> camera_control_order(a, b) == Ordering::Less,
        a.control == KnownCameraControls::Roll && b.control == KnownCameraControls::Zoom
            ==> camera_control_order(a, b) == Ordering::Less,
        a.control == KnownCameraControls::Zoom && b.control == KnownCameraControls::Exposure
            ==> camera_control_order(a, b) == Ordering::Less,
        a.control == KnownCameraControls::Exposure && b.control == KnownCameraControls::Iris
            ==> camera_control_order(a, b) == Ordering::Less,
        a.control == KnownCameraControls::Iris && b.control == KnownCameraControls::Focus
            ==> camera_control_order(a, b) == Ordering::Less,
{
    lemma_controls_ranked_as_declared();
}

} // verus!
