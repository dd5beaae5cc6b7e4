use vstd::prelude::*;

verus! {

/// One intersection reported by a ray cast, in the order of increasing distance.
#[derive(Clone, Copy, Debug, PartialEq, Eq, Structural)]
pub struct RayHit {
    /// Stable handle of the intersected scene object.
    pub entity: u64,
    /// Whether the object is one of the gizmo's own parts.
    pub is_gizmo_part: bool,
    /// Whether the object carries the transformable marker.
    pub tagged: bool,
}

/// An object may be picked when it is no gizmo part and, with tag filtering on,
/// carries the transformable marker.
pub open spec fn admissible_spec(hit: RayHit, use_tag_filter: bool) -> bool {
    !hit.is_gizmo_part && (!use_tag_filter || hit.tagged)
}

/// Whether `hit` may be picked under the given filter setting.
pub fn admissible(hit: &RayHit, use_tag_filter: bool) -> (r: bool)
    ensures
        r == admissible_spec(*hit, use_tag_filter),
{
    !hit.is_gizmo_part && (!use_tag_filter || hit.tagged)
}

/// `i` is the position of the nearest admissible hit among `hits`.
pub open spec fn is_nearest_admissible(hits: Seq<RayHit>, use_tag_filter: bool, i: int) -> bool {
    &&& 0 <= i < hits.len()
    &&& admissible_spec(hits[i], use_tag_filter)
    &&& forall|j: int| 0 <= j < i ==> !admissible_spec(#[trigger] hits[j], use_tag_filter)
}

/// No hit among `hits` may be picked.
pub open spec fn none_admissible(hits: Seq<RayHit>, use_tag_filter: bool) -> bool {
    forall|j: int| 0 <= j < hits.len() ==> !admissible_spec(#[trigger] hits[j], use_tag_filter)
}

/// Chooses the picked object from the hits of one ray cast.
///
/// `hits` is `None` when no ray could be built (no cursor, or a degenerate
/// camera); otherwise it lists every intersection, nearest first, without any
/// filter applied. The result is the nearest hit that is no gizmo part and, when
/// `use_tag_filter` is set, carries the transformable marker; the whole list is
/// always scanned, hidden objects included.
pub fn transform_gizmo_picking_2(hits: Option<Vec<RayHit>>, use_tag_filter: bool) -> (r: Option<
    u64,
>)
    ensures
        hits.is_none() ==> r.is_none(),
        hits.is_some() ==> match r {
            Some(e) => exists|i: int|
                is_nearest_admissible(hits.unwrap()@, use_tag_filter, i)
                    && #[trigger] hits.unwrap()@[i].entity == e,
            None => none_admissible(hits.unwrap()@, use_tag_filter),
        },
        r.is_some() ==> hits.is_some() && exists|i: int|
            0 <= i < hits.unwrap()@.len() && #[trigger] hits.unwrap()@[i].entity == r.unwrap()
                && !hits.unwrap()@[i].is_gizmo_part,
{
    let list = match hits {
        Some(h) => h,
        None => return None,
    };
    let mut i: usize = 0;
    while i < list.len()
        invariant
            hits == Some(list),
            0 <= i <= list@.len(),
            forall|j: int| 0 <= j < i ==> !admissible_spec(#[trigger] list@[j], use_tag_filter),
        decreases list@.len() - i,
    {
        if admissible(&list[i], use_tag_filter) {
            assert(is_nearest_admissible(list@, use_tag_filter, i as int));
            assert(hits.unwrap()@[i as int].entity == list@[i as int].entity);
            return Some(list[i].entity);
        }
        i = i + 1;
    }
    None
}

} // verus!
