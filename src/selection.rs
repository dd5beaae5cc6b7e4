use vstd::prelude::*;

verus! {

/// Mouse buttons that can commit a selection.
#[derive(Clone, Copy, Debug, PartialEq, Eq, Structural)]
pub enum MouseButton {
    Left,
    Right,
    Middle,
    Back,
    Forward,
    Other(u16),
}

/// Pointer buttons that can drive a drag.
#[derive(Clone, Copy, Debug, PartialEq, Eq, Structural)]
pub enum PointerButton {
    Primary,
    Secondary,
    Middle,
}

/// An sRGB color with 8 bits per channel.
#[derive(Clone, Copy, Debug, PartialEq, Eq, Structural)]
pub struct Rgba8 {
    pub r: u8,
    pub g: u8,
    pub b: u8,
    pub a: u8,
}

/// The default highlight of a selected object: an opaque light yellow (`#fde047`).
pub open spec fn default_selection_color_spec() -> Rgba8 {
    Rgba8 { r: 0xfd, g: 0xe0, b: 0x47, a: 0xff }
}

pub fn default_selection_color() -> (r: Rgba8)
    ensures
        r == default_selection_color_spec(),
{
    Rgba8 { r: 0xfd, g: 0xe0, b: 0x47, a: 0xff }
}

/// Settings chosen when the gizmo is installed.
#[derive(Clone, Copy, Debug)]
pub struct TransformGizmoPlugin {
    pub use_tag_filter: bool,
    pub selection_color: Rgba8,
    pub selection_button: MouseButton,
    pub drag_button: PointerButton,
}

impl Default for TransformGizmoPlugin {
    /// Picks tagged objects only, highlights in light yellow, selects with the left
    /// button and drags with the primary pointer button.
    fn default() -> (r: Self)
        ensures
            r.use_tag_filter == true,
            r.selection_color == default_selection_color_spec(),
            r.selection_button == MouseButton::Left,
            r.drag_button == PointerButton::Primary,
    {
        TransformGizmoPlugin {
            use_tag_filter: true,
            selection_color: default_selection_color(),
            selection_button: MouseButton::Left,
            drag_button: PointerButton::Primary,
        }
    }
}

/// The selection state of one session, with the settings that drive it.
///
/// `entity` is the selected object; `original_color` the material handle it had
/// before it was highlighted; `origin` its world transform (of type `T`) when it
/// was selected.
#[derive(Debug)]
pub struct TransformGizmoResource<T> {
    pub entity: Option<u64>,
    pub original_color: Option<u64>,
    pub origin: Option<T>,
    pub use_tag_filter: bool,
    pub selection_color: Rgba8,
    pub selection_button: MouseButton,
    pub drag_button: PointerButton,
}

impl<T> TransformGizmoResource<T> {
    /// The saved material and origin are present exactly while an object is selected.
    pub open spec fn inv(&self) -> bool {
        &&& self.entity.is_some() == self.original_color.is_some()
        &&& self.entity.is_some() == self.origin.is_some()
    }

    /// Nothing selected, with the settings of `plugin`.
    pub fn from_plugin(plugin: &TransformGizmoPlugin) -> (r: Self)
        ensures
            r.inv(),
            r.entity.is_none(),
            r.use_tag_filter == plugin.use_tag_filter,
            r.selection_color == plugin.selection_color,
            r.selection_button == plugin.selection_button,
            r.drag_button == plugin.drag_button,
    {
        TransformGizmoResource {
            entity: None,
            original_color: None,
            origin: None,
            use_tag_filter: plugin.use_tag_filter,
            selection_color: plugin.selection_color,
            selection_button: plugin.selection_button,
            drag_button: plugin.drag_button,
        }
    }
}

impl<T> Default for TransformGizmoResource<T> {
    /// Nothing selected; picks tagged objects only, highlights in light yellow,
    /// selects with the left button and drags with the primary pointer button.
    fn default() -> (r: Self)
        ensures
            r.inv(),
            r.entity.is_none(),
            r.use_tag_filter == true,
            r.selection_color == default_selection_color_spec(),
            r.selection_button == MouseButton::Left,
            r.drag_button == PointerButton::Primary,
    {
        TransformGizmoResource {
            entity: None,
            original_color: None,
            origin: None,
            use_tag_filter: true,
            selection_color: default_selection_color(),
            selection_button: MouseButton::Left,
            drag_button: PointerButton::Primary,
        }
    }
}

/// What the picker hit when the selection button was released: the object, the
/// material handle it shows now, and its world transform.
#[derive(Debug)]
pub struct SelectionHit<T> {
    pub entity: u64,
    pub material: u64,
    pub origin: T,
}

/// Give `entity` back the material handle `material`.
#[derive(Clone, Copy, Debug, PartialEq, Eq, Structural)]
pub struct MaterialRestore {
    pub entity: u64,
    pub material: u64,
}

/// What the scene must do after a selection step.
///
/// `restore` is applied first. When `highlight` is `Some(e)`, `e` gets a fresh
/// material in the selection color and the gizmo moves to the translation and
/// rotation of the new `origin`.
#[derive(Clone, Copy, Debug, PartialEq, Eq, Structural)]
pub struct SelectionActions {
    pub restore: Option<MaterialRestore>,
    pub highlight: Option<u64>,
}

/// The prior selection's saved material, to be put back on it.
pub open spec fn restore_spec<T>(s: TransformGizmoResource<T>) -> Option<MaterialRestore> {
    match (s.entity, s.original_color) {
        (Some(e), Some(m)) => Some(MaterialRestore { entity: e, material: m }),
        _ => None,
    }
}

/// The handle to remember for `hit`: what it showed before any highlight. When it
/// is the selected object, its current material is the highlight, and the saved
/// handle is kept.
pub open spec fn saved_material_spec<T>(s: TransformGizmoResource<T>, hit: SelectionHit<T>) -> u64 {
    if s.entity == Some(hit.entity) && s.original_color.is_some() {
        s.original_color.unwrap()
    } else {
        hit.material
    }
}

/// One selection step: the state after it and the actions it asks for.
///
/// A release of the selection button over a hit selects the hit; anything else,
/// including a release over empty space, changes nothing.
pub open spec fn select_step_spec<T>(
    s: TransformGizmoResource<T>,
    just_released: bool,
    hit: Option<SelectionHit<T>>,
) -> (TransformGizmoResource<T>, SelectionActions) {
    match hit {
        Some(h) if just_released => (
            TransformGizmoResource {
                entity: Some(h.entity),
                original_color: Some(saved_material_spec(s, h)),
                origin: Some(h.origin),
                ..s
            },
            SelectionActions { restore: restore_spec(s), highlight: Some(h.entity) },
        ),
        _ => (s, SelectionActions { restore: None, highlight: None }),
    }
}

/// Updates the selection for one frame.
///
/// `just_released` tells whether the selection button was released this frame;
/// `hit` is what the picker found under the cursor. The caller applies the
/// returned actions to the scene.
pub fn transform_gizmo_picking_3<T>(
    resource: &mut TransformGizmoResource<T>,
    just_released: bool,
    hit: Option<SelectionHit<T>>,
) -> (r: SelectionActions)
    ensures
        (*final(resource), r) == select_step_spec(*old(resource), just_released, hit),
        old(resource).inv() ==> final(resource).inv(),
{
    let h = match hit {
        Some(h) => h,
        None => return SelectionActions { restore: None, highlight: None },
    };
    if !just_released {
        return SelectionActions { restore: None, highlight: None };
    }
    let mut restore: Option<MaterialRestore> = None;
    let mut saved = h.material;
    if let Some(last) = resource.entity {
        if let Some(m) = resource.original_color {
            restore = Some(MaterialRestore { entity: last, material: m });
            if last == h.entity {
                saved = m;
            }
        }
    }
    resource.entity = Some(h.entity);
    resource.original_color = Some(saved);
    resource.origin = Some(h.origin);
    SelectionActions { restore, highlight: Some(h.entity) }
}

/// Selecting `a` and then another object `b` puts `a`'s material back exactly as
/// it was before `a` was selected, and leaves `b` highlighted with its own material
/// saved.
pub proof fn lemma_select_restores_previous<T>(
    s: TransformGizmoResource<T>,
    a: SelectionHit<T>,
    b: SelectionHit<T>,
)
    requires
        s.inv(),
        s.entity != Some(a.entity),
        a.entity != b.entity,
    ensures
        ({
            let (s1, _) = select_step_spec(s, true, Some(a));
            let (s2, acts) = select_step_spec(s1, true, Some(b));
            &&& acts.restore == Some(MaterialRestore { entity: a.entity, material: a.material })
            &&& acts.highlight == Some(b.entity)
            &&& s2.entity == Some(b.entity)
            &&& s2.original_color == Some(b.material)
            &&& s2.inv()
        }),
{
}

/// Selecting the already selected object again keeps the material it had before
/// the first highlight, whatever handle it shows now, and asks for that handle
/// to be put back before the new highlight.
pub proof fn lemma_reselect_keeps_original<T>(s: TransformGizmoResource<T>, a: SelectionHit<T>)
    requires
        s.inv(),
        s.entity == Some(a.entity),
    ensures
        ({
            let (s1, acts) = select_step_spec(s, true, Some(a));
            &&& s1.original_color == s.original_color
            &&& acts.restore == Some(
                MaterialRestore { entity: a.entity, material: s.original_color.unwrap() },
            )
            &&& acts.highlight == Some(a.entity)
            &&& s1.inv()
        }),
{
}

} // verus!
