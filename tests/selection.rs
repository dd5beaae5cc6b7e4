use transform_gizmo::selection::{
    default_selection_color, transform_gizmo_picking_3, MaterialRestore, MouseButton,
    PointerButton, Rgba8, SelectionActions, SelectionHit, TransformGizmoPlugin,
    TransformGizmoResource,
};

fn sel(entity: u64, material: u64, origin: (i32, i32, i32)) -> Option<SelectionHit<(i32, i32, i32)>> {
    Some(SelectionHit { entity, material, origin })
}

#[test]
fn resource_default_settings() {
    let r: TransformGizmoResource<u8> = TransformGizmoResource::default();
    assert_eq!(r.entity, None);
    assert_eq!(r.original_color, None);
    assert!(r.origin.is_none());
    assert!(r.use_tag_filter);
    assert_eq!(r.selection_color, Rgba8 { r: 0xfd, g: 0xe0, b: 0x47, a: 0xff });
    assert_eq!(r.selection_button, MouseButton::Left);
    assert_eq!(r.drag_button, PointerButton::Primary);
}

#[test]
fn plugin_default_settings() {
    let p = TransformGizmoPlugin::default();
    assert!(p.use_tag_filter);
    assert_eq!(p.selection_color, default_selection_color());
    assert_eq!(p.selection_button, MouseButton::Left);
    assert_eq!(p.drag_button, PointerButton::Primary);
}

#[test]
fn resource_takes_plugin_settings() {
    let p = TransformGizmoPlugin {
        use_tag_filter: true,
        selection_color: Rgba8 { r: 1, g: 2, b: 3, a: 4 },
        selection_button: MouseButton::Right,
        drag_button: PointerButton::Secondary,
    };
    let r: TransformGizmoResource<u8> = TransformGizmoResource::from_plugin(&p);
    assert_eq!(r.entity, None);
    assert!(r.use_tag_filter);
    assert_eq!(r.selection_color, Rgba8 { r: 1, g: 2, b: 3, a: 4 });
    assert_eq!(r.selection_button, MouseButton::Right);
    assert_eq!(r.drag_button, PointerButton::Secondary);
}

#[test]
fn first_selection_saves_material_and_origin() {
    let mut r = TransformGizmoResource::default();
    let acts = transform_gizmo_picking_3(&mut r, true, sel(10, 100, (1, 2, 3)));
    assert_eq!(acts, SelectionActions { restore: None, highlight: Some(10) });
    assert_eq!(r.entity, Some(10));
    assert_eq!(r.original_color, Some(100));
    assert_eq!(r.origin, Some((1, 2, 3)));
}

#[test]
fn selecting_b_restores_a() {
    let mut r = TransformGizmoResource::default();
    transform_gizmo_picking_3(&mut r, true, sel(10, 100, (0, 0, 0)));
    // object 20 shows material 200 when it is picked
    let acts = transform_gizmo_picking_3(&mut r, true, sel(20, 200, (4, 5, 6)));
    assert_eq!(
        acts,
        SelectionActions {
            restore: Some(MaterialRestore { entity: 10, material: 100 }),
            highlight: Some(20),
        }
    );
    assert_eq!(r.entity, Some(20));
    assert_eq!(r.original_color, Some(200));
    assert_eq!(r.origin, Some((4, 5, 6)));
}

#[test]
fn reselecting_keeps_pre_highlight_material() {
    let mut r = TransformGizmoResource::default();
    transform_gizmo_picking_3(&mut r, true, sel(10, 100, (0, 0, 0)));
    let acts = transform_gizmo_picking_3(&mut r, true, sel(10, 500, (0, 0, 1)));
    assert_eq!(
        acts,
        SelectionActions {
            restore: Some(MaterialRestore { entity: 10, material: 100 }),
            highlight: Some(10),
        }
    );
    assert_eq!(r.original_color, Some(100));
    assert_eq!(r.origin, Some((0, 0, 1)));
}

#[test]
fn release_over_nothing_keeps_selection() {
    let mut r = TransformGizmoResource::default();
    transform_gizmo_picking_3(&mut r, true, sel(10, 100, (0, 0, 0)));
    let acts = transform_gizmo_picking_3(&mut r, true, None);
    assert_eq!(acts, SelectionActions { restore: None, highlight: None });
    assert_eq!(r.entity, Some(10));
    assert_eq!(r.original_color, Some(100));
}

#[test]
fn hover_without_release_changes_nothing() {
    let mut r: TransformGizmoResource<(i32, i32, i32)> = TransformGizmoResource::default();
    let acts = transform_gizmo_picking_3(&mut r, false, sel(10, 100, (0, 0, 0)));
    assert_eq!(acts, SelectionActions { restore: None, highlight: None });
    assert_eq!(r.entity, None);
    assert_eq!(r.original_color, None);
}
