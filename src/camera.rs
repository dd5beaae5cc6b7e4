use vstd::prelude::*;

verus! {

/// How far the gizmo's own camera is drawn after the pick camera.
pub const GIZMO_CAMERA_ORDER_OFFSET: isize = 10;

/// Which parts of the pick camera the gizmo camera copies this frame.
#[derive(Clone, Copy, Debug, PartialEq, Eq, Structural)]
pub struct MirrorPlan {
    pub copy_transform: bool,
    /// `Some(order)` when the camera settings are copied, with the order the copy
    /// is drawn in.
    pub camera_order: Option<isize>,
    pub copy_projection: bool,
}

/// The pick camera could not be told apart.
#[derive(Clone, Copy, Debug, PartialEq, Eq, Structural)]
pub enum MirrorError {
    /// No camera is marked as the pick source.
    NoPickSource,
    /// More than one camera is marked as the pick source.
    MultiplePickSources,
}

/// Decides what the gizmo camera copies from the pick camera this frame.
///
/// `pick_sources` is the number of cameras marked as pick source; the three flags
/// tell which parts of it changed since the last frame; `source_order` is its draw
/// order. Only what changed is copied, and the copied camera is drawn
/// `GIZMO_CAMERA_ORDER_OFFSET` later.
pub fn gizmo_cam_copy_settings(
    pick_sources: usize,
    transform_changed: bool,
    camera_changed: bool,
    projection_changed: bool,
    source_order: isize,
) -> (r: Result<MirrorPlan, MirrorError>)
    requires
        pick_sources == 1 && camera_changed ==> source_order <= isize::MAX
            - GIZMO_CAMERA_ORDER_OFFSET,
    ensures
        pick_sources == 0 ==> r == Err::<MirrorPlan, MirrorError>(MirrorError::NoPickSource),
        pick_sources > 1 ==> r == Err::<MirrorPlan, MirrorError>(MirrorError::MultiplePickSources),
        pick_sources == 1 ==> r == Ok::<MirrorPlan, MirrorError>(
            MirrorPlan {
                copy_transform: transform_changed,
                camera_order: if camera_changed {
                    Some((source_order + GIZMO_CAMERA_ORDER_OFFSET) as isize)
                } else {
                    None
                },
                copy_projection: projection_changed,
            },
        ),
{
    if pick_sources == 0 {
        return Err(MirrorError::NoPickSource);
    }
    if pick_sources > 1 {
        return Err(MirrorError::MultiplePickSources);
    }
    let camera_order = if camera_changed {
        Some(source_order + GIZMO_CAMERA_ORDER_OFFSET)
    } else {
        None
    };
    Ok(MirrorPlan { copy_transform: transform_changed, camera_order, copy_projection: projection_changed })
}

} // verus!
