use vstd::prelude::*;
use crate::transformations::HandleKind;

verus! {

/// World axis a part belongs to.
#[derive(Clone, Copy, Debug, PartialEq, Eq, Structural)]
pub enum Axis3 {
    X,
    Y,
    Z,
}

/// Mesh a part is drawn with.
#[derive(Clone, Copy, Debug, PartialEq, Eq, Structural)]
pub enum PartShape {
    /// The capsule shaft of a translation arrow.
    Shaft,
    /// The cone tip of a translation arrow.
    Cone,
    /// A square patch spanning the plane normal to the axis.
    Patch,
    /// The sphere in the middle.
    Sphere,
    /// A ring about the axis.
    Arc,
}

/// One part of the gizmo: its mesh, the axis it stands for (none for the free
/// handle) and the drag behaviour it drives.
#[derive(Clone, Copy, Debug, PartialEq, Eq, Structural)]
pub struct GizmoPartSpec {
    pub shape: PartShape,
    pub axis: Option<Axis3>,
    pub handle: HandleKind,
}

pub open spec fn part(shape: PartShape, axis: Option<Axis3>, handle: HandleKind) -> GizmoPartSpec {
    GizmoPartSpec { shape, axis, handle }
}

/// The parts of the gizmo, in the order they are built: three shafts, the tip and
/// the plane patch of each axis, the free handle, and three rotation rings.
pub open spec fn gizmo_parts_spec() -> Seq<GizmoPartSpec> {
    seq![
        part(PartShape::Shaft, Some(Axis3::X), HandleKind::Axis),
        part(PartShape::Shaft, Some(Axis3::Y), HandleKind::Axis),
        part(PartShape::Shaft, Some(Axis3::Z), HandleKind::Axis),
        part(PartShape::Cone, Some(Axis3::X), HandleKind::Axis),
        part(PartShape::Patch, Some(Axis3::X), HandleKind::Plane),
        part(PartShape::Cone, Some(Axis3::Y), HandleKind::Axis),
        part(PartShape::Patch, Some(Axis3::Y), HandleKind::Plane),
        part(PartShape::Cone, Some(Axis3::Z), HandleKind::Axis),
        part(PartShape::Patch, Some(Axis3::Z), HandleKind::Plane),
        part(PartShape::Sphere, None, HandleKind::CameraPlane),
        part(PartShape::Arc, Some(Axis3::X), HandleKind::Rotation),
        part(PartShape::Arc, Some(Axis3::Y), HandleKind::Rotation),
        part(PartShape::Arc, Some(Axis3::Z), HandleKind::Rotation),
    ]
}

/// Lists the parts that the gizmo is built from.
pub fn build_gizmo() -> (r: Vec<GizmoPartSpec>)
    ensures
        r@ == gizmo_parts_spec(),
{
    let r = vec![
        GizmoPartSpec { shape: PartShape::Shaft, axis: Some(Axis3::X), handle: HandleKind::Axis },
        GizmoPartSpec { shape: PartShape::Shaft, axis: Some(Axis3::Y), handle: HandleKind::Axis },
        GizmoPartSpec { shape: PartShape::Shaft, axis: Some(Axis3::Z), handle: HandleKind::Axis },
        GizmoPartSpec { shape: PartShape::Cone, axis: Some(Axis3::X), handle: HandleKind::Axis },
        GizmoPartSpec { shape: PartShape::Patch, axis: Some(Axis3::X), handle: HandleKind::Plane },
        GizmoPartSpec { shape: PartShape::Cone, axis: Some(Axis3::Y), handle: HandleKind::Axis },
        GizmoPartSpec { shape: PartShape::Patch, axis: Some(Axis3::Y), handle: HandleKind::Plane },
        GizmoPartSpec { shape: PartShape::Cone, axis: Some(Axis3::Z), handle: HandleKind::Axis },
        GizmoPartSpec { shape: PartShape::Patch, axis: Some(Axis3::Z), handle: HandleKind::Plane },
        GizmoPartSpec { shape: PartShape::Sphere, axis: None, handle: HandleKind::CameraPlane },
        GizmoPartSpec { shape: PartShape::Arc, axis: Some(Axis3::X), handle: HandleKind::Rotation },
        GizmoPartSpec { shape: PartShape::Arc, axis: Some(Axis3::Y), handle: HandleKind::Rotation },
        GizmoPartSpec { shape: PartShape::Arc, axis: Some(Axis3::Z), handle: HandleKind::Rotation },
    ];
    assert(r@ =~= gizmo_parts_spec());
    r
}

} // verus!
