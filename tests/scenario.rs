use transform_gizmo::picking::{transform_gizmo_picking_2, RayHit};
use transform_gizmo::selection::{transform_gizmo_picking_3, SelectionActions, TransformGizmoResource};
use transform_gizmo::transformations::drag_targets;

/// A tagged cube at the origin, picked and selected, then dragged by its X arrow.
#[test]
fn select_cube_then_drag_x_arrow() {
    let cube: u64 = 1;
    let gizmo: u64 = 2;
    let x_arrow: u64 = 3;
    let mut res: TransformGizmoResource<[i32; 3]> = TransformGizmoResource::default();

    // the cursor ray meets the gizmo's arrow first, then the cube
    let hits = vec![
        RayHit { entity: x_arrow, is_gizmo_part: true, tagged: false },
        RayHit { entity: cube, is_gizmo_part: false, tagged: true },
    ];
    let picked = transform_gizmo_picking_2(Some(hits), res.use_tag_filter);
    assert_eq!(picked, Some(cube));

    let hit = picked.map(|e| transform_gizmo::selection::SelectionHit {
        entity: e,
        material: 11,
        origin: [0, 0, 0],
    });
    let acts = transform_gizmo_picking_3(&mut res, true, hit);
    assert_eq!(acts, SelectionActions { restore: None, highlight: Some(cube) });
    assert_eq!(res.entity, Some(cube));
    assert_eq!(res.origin, Some([0, 0, 0]));

    let drag_button = res.drag_button;
    assert_eq!(drag_targets(&res, drag_button, Some(gizmo), true, true), vec![gizmo, cube]);
}
