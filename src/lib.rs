//! Decision logic of an interactive 3D transform gizmo: which object a cursor ray
//! picks, how a selection changes and which materials it swaps, where the delta of
//! a drag on a gizmo part goes, and what the gizmo's own camera copies from the
//! pick camera. The host engine reads the scene, does the geometry and applies
//! what these functions decide.

pub mod camera;
pub mod gizmo_component;
pub mod picking;
pub mod selection;
pub mod transformations;
