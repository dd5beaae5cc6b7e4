use vstd::prelude::*;
use crate::selection::{PointerButton, TransformGizmoResource};

verus! {

/// The four drag behaviours of the gizmo's parts.
#[derive(Clone, Copy, Debug, PartialEq, Eq, Structural)]
pub enum HandleKind {
    /// Translate along one axis (an arrow).
    Axis,
    /// Translate within a plane of the gizmo (a plane patch).
    Plane,
    /// Translate within the plane facing the camera (the free handle).
    CameraPlane,
    /// Rotate about one axis (an arc).
    Rotation,
}

/// A direction read at drag time from the dragged part's or the pick camera's
/// world transform.
#[derive(Clone, Copy, Debug, PartialEq, Eq, Structural)]
pub enum FrameAxis {
    PartUp,
    PartForward,
    PartRight,
    PartBack,
    CameraUp,
    CameraRight,
    CameraBack,
}

/// Normal of the plane, through the dragged part, that both cursor rays are
/// intersected with.
pub open spec fn drag_plane_normal_spec(kind: HandleKind) -> FrameAxis {
    match kind {
        HandleKind::Axis => FrameAxis::PartForward,
        HandleKind::Plane => FrameAxis::PartUp,
        HandleKind::CameraPlane => FrameAxis::CameraBack,
        HandleKind::Rotation => FrameAxis::PartUp,
    }
}

/// Axes the hit-point difference is projected onto, the projections summed (for a
/// translation), or the axis turned about (for a rotation).
pub open spec fn motion_axes_spec(kind: HandleKind) -> Seq<FrameAxis> {
    match kind {
        HandleKind::Axis => seq![FrameAxis::PartUp],
        HandleKind::Plane => seq![FrameAxis::PartForward, FrameAxis::PartRight],
        HandleKind::CameraPlane => seq![FrameAxis::CameraUp, FrameAxis::CameraRight],
        HandleKind::Rotation => seq![FrameAxis::PartUp],
    }
}

/// Whether a drag of this kind turns rather than moves.
pub open spec fn is_rotation_spec(kind: HandleKind) -> bool {
    kind == HandleKind::Rotation
}

/// Direction from which a rotation part measures the angle of a hit point.
pub open spec fn rotation_reference_spec() -> FrameAxis {
    FrameAxis::PartBack
}

pub fn drag_plane_normal(kind: HandleKind) -> (r: FrameAxis)
    ensures
        r == drag_plane_normal_spec(kind),
{
    match kind {
        HandleKind::Axis => FrameAxis::PartForward,
        HandleKind::Plane => FrameAxis::PartUp,
        HandleKind::CameraPlane => FrameAxis::CameraBack,
        HandleKind::Rotation => FrameAxis::PartUp,
    }
}

pub fn motion_axes(kind: HandleKind) -> (r: Vec<FrameAxis>)
    ensures
        r@ == motion_axes_spec(kind),
{
    let r = match kind {
        HandleKind::Axis => vec![FrameAxis::PartUp],
        HandleKind::Plane => vec![FrameAxis::PartForward, FrameAxis::PartRight],
        HandleKind::CameraPlane => vec![FrameAxis::CameraUp, FrameAxis::CameraRight],
        HandleKind::Rotation => vec![FrameAxis::PartUp],
    };
    assert(r@ =~= motion_axes_spec(kind));
    r
}

pub fn is_rotation(kind: HandleKind) -> (r: bool)
    ensures
        r == is_rotation_spec(kind),
{
    match kind {
        HandleKind::Rotation => true,
        _ => false,
    }
}

pub fn rotation_reference() -> (r: FrameAxis)
    ensures
        r == rotation_reference_spec(),
{
    FrameAxis::PartBack
}

/// Entities whose local transform receive the delta of one drag event, in order:
/// the gizmo, then the selected object. Empty when the event is dropped.
pub open spec fn drag_targets_spec<T>(
    resource: TransformGizmoResource<T>,
    button: PointerButton,
    gizmo: Option<u64>,
    selected_transform_present: bool,
    motion_found: bool,
) -> Seq<u64> {
    if button != resource.drag_button || !motion_found || gizmo.is_none() {
        Seq::empty()
    } else {
        match resource.entity {
            None => seq![gizmo.unwrap()],
            Some(e) => if selected_transform_present {
                seq![gizmo.unwrap(), e]
            } else {
                Seq::empty()
            },
        }
    }
}

/// Decides where the delta of one drag event on a gizmo part goes.
///
/// `button` is the pointer button of the drag; `gizmo` the part's parent, when it
/// has a local transform; `selected_transform_present` whether the selected object
/// (if any) has one; `motion_found` whether the cursor was in the window and both
/// cursor rays met the drag plane. The event is dropped unless it comes from the
/// configured drag button and every piece is there: the gizmo and the selected
/// object move together or not at all.
pub fn drag_targets<T>(
    resource: &TransformGizmoResource<T>,
    button: PointerButton,
    gizmo: Option<u64>,
    selected_transform_present: bool,
    motion_found: bool,
) -> (r: Vec<u64>)
    ensures
        r@ == drag_targets_spec(*resource, button, gizmo, selected_transform_present, motion_found),
{
    let mut r: Vec<u64> = Vec::new();
    if button != resource.drag_button || !motion_found {
        return r;
    }
    let g = match gizmo {
        Some(g) => g,
        None => return r,
    };
    match resource.entity {
        None => {
            r.push(g);
        },
        Some(e) => {
            if selected_transform_present {
                r.push(g);
                r.push(e);
            }
        },
    }
    assert(r@ =~= drag_targets_spec(*resource, button, gizmo, selected_transform_present, motion_found));
    r
}

/// A drag never moves the gizmo without the selected object: while an object is
/// selected, an event either moves both, the gizmo first, or neither.
pub proof fn lemma_drag_moves_together<T>(
    resource: TransformGizmoResource<T>,
    button: PointerButton,
    gizmo: Option<u64>,
    selected_transform_present: bool,
    motion_found: bool,
)
    requires
        resource.entity.is_some(),
    ensures
        ({
            let t = drag_targets_spec(resource, button, gizmo, selected_transform_present, motion_found);
            t.len() == 0 || t == seq![gizmo.unwrap(), resource.entity.unwrap()]
        }),
{
}

} // verus!
