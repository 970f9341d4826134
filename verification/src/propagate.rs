//! The propagation pass: for every entity that carries an independent
//! placement (and no default local placement), write its world placement under
//! the translation-only inheritance rule from its parent's already-finalised
//! world placement.
//!
//! The pass coincides with its spec (`spec_pass`) on scenes whose pending
//! sums are well-behaved (`scene_wf`).  Elsewhere its contract still fixes
//! the selection, the skip gate, the change flags and the copied rotation and
//! scale, and leaves open only the bit patterns of translation components
//! whose single-precision sum is a NaN, which the language does not fix.

use vstd::prelude::*;
use crate::placement::IndependentTransform;
use crate::placement::Placement;
use crate::placement::is_nan_bits;
use crate::placement::spec_vec3_sum;
use crate::placement::sum_bits;
use crate::placement::sum_defined;
use crate::placement::vec3_sum;
use crate::placement::vec3_sum_defined;

verus! {

/// One entity of the scene, as this pass sees it: its world placement slot
/// and change flag, its independent placement (if it carries one) and change
/// flag, whether it carries a default local placement, and its parent link
/// (an index into the scene).
#[derive(Clone, Copy, Debug, PartialEq, Eq)]
pub struct SceneEntity {
    pub world: Option<Placement>,
    pub world_changed: bool,
    pub independent: Option<IndependentTransform>,
    pub independent_changed: bool,
    pub has_local: bool,
    pub parent: Option<usize>,
}

/// A parent's world placement and its change flag, as read from the frame's
/// snapshot.
#[derive(Clone, Copy, Debug, PartialEq, Eq, Structural)]
pub struct ParentWorld {
    pub world: Placement,
    pub world_changed: bool,
}

/// Whether the pass updates this entity: it carries an independent placement,
/// no default local placement, and has a world placement slot.
pub open spec fn selected(e: SceneEntity) -> bool {
    e.independent is Some && !e.has_local && e.world is Some
}

/// Whether the entity at index `j` can serve as a parent for the lookup: it
/// exists, holds a world placement, and does not itself carry an independent
/// placement (its world placement was finalised by the host's full-affine
/// propagator before this pass).
pub open spec fn eligible_parent(s: Seq<SceneEntity>, j: int) -> bool {
    &&& 0 <= j < s.len()
    &&& s[j].independent is None
    &&& s[j].world is Some
}

/// The parent lookup for entity `e`: its parent's world placement and change
/// flag, or `None` when `e` has no parent link or the link does not resolve
/// to an eligible world placement.
pub open spec fn lookup_parent(s: Seq<SceneEntity>, e: SceneEntity) -> Option<ParentWorld> {
    match e.parent {
        Some(j) => if eligible_parent(s, j as int) {
            Some(ParentWorld { world: s[j as int].world->0, world_changed: s[j as int].world_changed })
        } else {
            None
        },
        None => None,
    }
}

/// The translation-only inheritance rule: rotation and scale are taken from
/// the independent placement unchanged, the translation is the sum of the
/// independent translation and the parent's world translation.  Its
/// translation components name fixed bit patterns only where `sum_defined`
/// holds of the pair.
pub open spec fn translation_inherited(independent: Placement, parent_world: Placement) -> Placement {
    Placement {
        translation: spec_vec3_sum(independent.translation, parent_world.translation),
        rotation: independent.rotation,
        scale: independent.scale,
    }
}

/// What the pass writes for one selected entity: under a resolved parent, the
/// inherited placement when either side changed this frame; at a root (or an
/// unresolved parent link), the independent placement itself when it changed;
/// otherwise nothing.
pub open spec fn spec_propagate_entity(
    independent: IndependentTransform,
    independent_changed: bool,
    parent: Option<ParentWorld>,
) -> Option<Placement> {
    match parent {
        Some(p) => if p.world_changed || independent_changed {
            Some(translation_inherited(independent.0, p.world))
        } else {
            None
        },
        None => if independent_changed {
            Some(independent.0)
        } else {
            None
        },
    }
}

/// Whether the sum a step would take is well-behaved: under a resolved
/// parent, every component pair of the two translations satisfies
/// `sum_defined`; a root step sums nothing.
pub open spec fn step_defined(independent: IndependentTransform, parent: Option<ParentWorld>) -> bool {
    match parent {
        Some(p) => vec3_sum_defined(independent.0.translation, p.world.translation),
        None => true,
    }
}

/// Whether the step the pass would take at index `i` is well-behaved.
pub open spec fn entity_wf(s: Seq<SceneEntity>, i: int) -> bool {
    selected(s[i]) ==> step_defined(s[i].independent->0, lookup_parent(s, s[i]))
}

/// A well-formed scene: every step the pass would take sums only
/// well-behaved component pairs, so each result is one fixed bit pattern.
pub open spec fn scene_wf(s: Seq<SceneEntity>) -> bool {
    forall|i: int| 0 <= i < s.len() ==> #[trigger] entity_wf(s, i)
}

/// The entity at index `i` after the pass: unchanged unless it is selected
/// and the per-entity rule yields a new world placement, in which case the
/// world placement is written and its change flag set.
pub open spec fn next_entity(s: Seq<SceneEntity>, i: int) -> SceneEntity {
    let e = s[i];
    if selected(e) {
        match spec_propagate_entity(e.independent->0, e.independent_changed, lookup_parent(s, e)) {
            Some(w) => SceneEntity {
                world: Some(w),
                world_changed: true,
                independent: e.independent,
                independent_changed: e.independent_changed,
                has_local: e.has_local,
                parent: e.parent,
            },
            None => e,
        }
    } else {
        e
    }
}

/// The whole scene after one pass.
pub open spec fn spec_pass(s: Seq<SceneEntity>) -> Seq<SceneEntity> {
    Seq::new(s.len(), |i: int| next_entity(s, i))
}

/// What holds of `e2` when the pass rewrote entity `e` under the resolved
/// parent `p`: every field but the world placement kept, the world slot
/// filled and marked changed, rotation and scale copied from the independent
/// placement, and each translation component the named sum where
/// `sum_defined` holds of its pair — some NaN pattern otherwise.
pub open spec fn written_under_parent(e2: SceneEntity, e: SceneEntity, p: ParentWorld) -> bool {
    let ind = (e.independent->0).0;
    &&& e2.independent == e.independent
    &&& e2.independent_changed == e.independent_changed
    &&& e2.has_local == e.has_local
    &&& e2.parent == e.parent
    &&& e2.world_changed
    &&& e2.world is Some
    &&& (e2.world->0).rotation == ind.rotation
    &&& (e2.world->0).scale == ind.scale
    &&& (sum_defined(ind.translation.x, p.world.translation.x) ==> (e2.world->0).translation.x
        == sum_bits(ind.translation.x, p.world.translation.x))
    &&& (sum_defined(ind.translation.y, p.world.translation.y) ==> (e2.world->0).translation.y
        == sum_bits(ind.translation.y, p.world.translation.y))
    &&& (sum_defined(ind.translation.z, p.world.translation.z) ==> (e2.world->0).translation.z
        == sum_bits(ind.translation.z, p.world.translation.z))
    &&& (!sum_defined(ind.translation.x, p.world.translation.x) ==> is_nan_bits(
        (e2.world->0).translation.x,
    ))
    &&& (!sum_defined(ind.translation.y, p.world.translation.y) ==> is_nan_bits(
        (e2.world->0).translation.y,
    ))
    &&& (!sum_defined(ind.translation.z, p.world.translation.z) ==> is_nan_bits(
        (e2.world->0).translation.z,
    ))
}

/// What the pass guarantees of the entity ending at index `i`, entered with
/// scene `s`: exactly `next_entity`, except that a rewritten translation
/// component whose sum is not well-behaved is only known to be some NaN.
pub open spec fn pass_result(s: Seq<SceneEntity>, i: int, e2: SceneEntity) -> bool {
    let e = s[i];
    if selected(e) {
        match lookup_parent(s, e) {
            Some(p) => if p.world_changed || e.independent_changed {
                written_under_parent(e2, e, p)
            } else {
                e2 == e
            },
            None => if e.independent_changed {
                e2 == (SceneEntity {
                    world: Some((e.independent->0).0),
                    world_changed: true,
                    independent: e.independent,
                    independent_changed: e.independent_changed,
                    has_local: e.has_local,
                    parent: e.parent,
                })
            } else {
                e2 == e
            },
        }
    } else {
        e2 == e
    }
}

/// World placement of an independent entity under a parent: rotation and
/// scale copied from the independent placement, translation the sum of the
/// independent translation and the parent's world translation — each
/// component the named sum where its pair is well-behaved, some NaN pattern
/// otherwise.
pub fn with_parent_translation(independent: &IndependentTransform, parent_world: &Placement) -> (r:
    Placement)
    ensures
        r.rotation == independent.0.rotation,
        r.scale == independent.0.scale,
        vec3_sum_defined(independent.0.translation, parent_world.translation) ==> r
            == translation_inherited(independent.0, *parent_world),
        sum_defined(independent.0.translation.x, parent_world.translation.x) ==> r.translation.x
            == sum_bits(independent.0.translation.x, parent_world.translation.x),
        sum_defined(independent.0.translation.y, parent_world.translation.y) ==> r.translation.y
            == sum_bits(independent.0.translation.y, parent_world.translation.y),
        sum_defined(independent.0.translation.z, parent_world.translation.z) ==> r.translation.z
            == sum_bits(independent.0.translation.z, parent_world.translation.z),
        !sum_defined(independent.0.translation.x, parent_world.translation.x) ==> is_nan_bits(
            r.translation.x,
        ),
        !sum_defined(independent.0.translation.y, parent_world.translation.y) ==> is_nan_bits(
            r.translation.y,
        ),
        !sum_defined(independent.0.translation.z, parent_world.translation.z) ==> is_nan_bits(
            r.translation.z,
        ),
{
    Placement {
        translation: vec3_sum(&independent.0.translation, &parent_world.translation),
        rotation: independent.0.rotation,
        scale: independent.0.scale,
    }
}

/// The per-entity step: the new world placement to write for an entity whose
/// independent placement is `independent`, or `None` when the entity is to be
/// skipped.  `parent` is the resolved parent lookup.  The decision is exact;
/// the written placement equals the spec's whenever the step's sums are
/// well-behaved, and otherwise differs from it only in translation
/// components whose sum is a NaN.
pub fn propagate_entity(
    independent: &IndependentTransform,
    independent_changed: bool,
    parent: Option<ParentWorld>,
) -> (update: Option<Placement>)
    ensures
        update is Some <==> spec_propagate_entity(*independent, independent_changed, parent)
            is Some,
        step_defined(*independent, parent) ==> update == spec_propagate_entity(
            *independent,
            independent_changed,
            parent,
        ),
        parent is None && update is Some ==> update->0 == independent.0,
        parent matches Some(p) ==> update matches Some(w) ==> ({
            &&& w.rotation == independent.0.rotation
            &&& w.scale == independent.0.scale
            &&& (sum_defined(independent.0.translation.x, p.world.translation.x)
                ==> w.translation.x == sum_bits(
                independent.0.translation.x,
                p.world.translation.x,
            ))
            &&& (sum_defined(independent.0.translation.y, p.world.translation.y)
                ==> w.translation.y == sum_bits(
                independent.0.translation.y,
                p.world.translation.y,
            ))
            &&& (sum_defined(independent.0.translation.z, p.world.translation.z)
                ==> w.translation.z == sum_bits(
                independent.0.translation.z,
                p.world.translation.z,
            ))
            &&& (!sum_defined(independent.0.translation.x, p.world.translation.x) ==> is_nan_bits(
                w.translation.x,
            ))
            &&& (!sum_defined(independent.0.translation.y, p.world.translation.y) ==> is_nan_bits(
                w.translation.y,
            ))
            &&& (!sum_defined(independent.0.translation.z, p.world.translation.z) ==> is_nan_bits(
                w.translation.z,
            ))
        }),
{
    match parent {
        Some(p) => {
            if p.world_changed || independent_changed {
                Some(with_parent_translation(independent, &p.world))
            } else {
                None
            }
        },
        None => {
            if independent_changed {
                Some(independent.0)
            } else {
                None
            }
        },
    }
}

/// One propagation pass over the scene, updating world placements in place.
/// Every entity ends as `pass_result` of the scene the pass entered with:
/// entities that are not selected are untouched, skips leave the entity
/// bit-identical, and parent placements are read as the host's full-affine
/// propagator left them (an entity that carries an independent placement
/// never serves as a parent).  On a well-formed scene the result is exactly
/// `spec_pass`.
pub fn update_independent_transforms(scene: &mut Vec<SceneEntity>)
    ensures
        final(scene)@.len() == old(scene)@.len(),
        forall|i: int| 0 <= i < old(scene)@.len() ==> pass_result(
            old(scene)@,
            i,
            final(scene)@[i],
        ),
        scene_wf(old(scene)@) ==> final(scene)@ == spec_pass(old(scene)@),
{
    let ghost s0 = scene@;
    let n = scene.len();
    let mut i: usize = 0;
    while i < n
        invariant
            n == s0.len(),
            scene@.len() == s0.len(),
            forall|k: int| 0 <= k < i ==> pass_result(s0, k, scene@[k]),
            forall|k: int| i <= k < s0.len() ==> scene@[k] == s0[k],
            scene_wf(s0) ==> forall|k: int| 0 <= k < i ==> scene@[k] == next_entity(s0, k),
        decreases n - i,
    {
        let e = scene[i];
        if e.independent.is_some() && !e.has_local && e.world.is_some() {
            let independent = e.independent.unwrap();
            let mut parent: Option<ParentWorld> = None;
            if let Some(j) = e.parent {
                if j < n {
                    let q = scene[j];
                    proof {
                        if (j as int) < (i as int) {
                            assert(pass_result(s0, j as int, scene@[j as int]));
                            assert(scene@[j as int].independent == s0[j as int].independent);
                            if s0[j as int].independent is None {
                                assert(!selected(s0[j as int]));
                                assert(scene@[j as int] == s0[j as int]);
                            }
                        }
                    }
                    if q.independent.is_none() {
                        if let Some(w) = q.world {
                            parent = Some(ParentWorld { world: w, world_changed: q.world_changed });
                        }
                    }
                }
            }
            proof {
                assert(parent == lookup_parent(s0, e));
            }
            let update = propagate_entity(&independent, e.independent_changed, parent);
            if let Some(w) = update {
                scene[i] = SceneEntity {
                    world: Some(w),
                    world_changed: true,
                    independent: e.independent,
                    independent_changed: e.independent_changed,
                    has_local: e.has_local,
                    parent: e.parent,
                };
            }
            proof {
                assert(pass_result(s0, i as int, scene@[i as int]));
                if scene_wf(s0) {
                    assert(entity_wf(s0, i as int));
                    assert(scene@[i as int] == next_entity(s0, i as int));
                }
            }
        } else {
            proof {
                assert(!selected(e));
                assert(pass_result(s0, i as int, scene@[i as int]));
                if scene_wf(s0) {
                    assert(scene@[i as int] == next_entity(s0, i as int));
                }
            }
        }
        i = i + 1;
    }
    proof {
        if scene_wf(s0) {
            assert(scene@ =~= spec_pass(s0));
        }
    }
}

/// The pass keeps every field of an entity except its world placement and the
/// placement's change flag, it never removes a world placement, and it leaves
/// an entity that is not selected entirely untouched.
proof fn lemma_next_preserves_shape(s: Seq<SceneEntity>, k: int)
    requires
        0 <= k < s.len(),
    ensures
        spec_pass(s)[k].independent == s[k].independent,
        spec_pass(s)[k].independent_changed == s[k].independent_changed,
        spec_pass(s)[k].has_local == s[k].has_local,
        spec_pass(s)[k].parent == s[k].parent,
        spec_pass(s)[k].world is Some <==> s[k].world is Some,
        !selected(s[k]) ==> spec_pass(s)[k] == s[k],
{
    assert(spec_pass(s)[k] == next_entity(s, k));
}

/// The parent lookup gives the same answer on the scene the pass produced:
/// eligible parents are never selected, so the pass left them untouched.
proof fn lemma_lookup_stable(s: Seq<SceneEntity>, i: int)
    requires
        0 <= i < s.len(),
    ensures
        lookup_parent(spec_pass(s), spec_pass(s)[i]) == lookup_parent(s, s[i]),
{
    let s1 = spec_pass(s);
    lemma_next_preserves_shape(s, i);
    match s[i].parent {
        Some(j) => {
            if (j as int) < s.len() {
                lemma_next_preserves_shape(s, j as int);
                if s[j as int].independent is None {
                    assert(!selected(s[j as int]));
                    assert(s1[j as int] == s[j as int]);
                }
                assert(lookup_parent(s1, s1[i]) == lookup_parent(s, s[i]));
            } else {
                assert(lookup_parent(s1, s1[i]) == lookup_parent(s, s[i]));
            }
        },
        None => {
            assert(lookup_parent(s1, s1[i]) == lookup_parent(s, s[i]));
        },
    }
}

/// Translation-only inheritance: after one pass, a selected entity whose
/// parent link resolves holds its independent rotation and scale unchanged
/// and, componentwise, the single-precision sum of its independent
/// translation and the parent's world translation — provided this frame wrote
/// one of the two placements, or the entity's world placement was already
/// current.  Stated of the pass's spec, which the executable pass realises
/// on well-formed scenes (`scene_wf`).
pub proof fn lemma_translation_only_inheritance(s: Seq<SceneEntity>, i: int)
    requires
        0 <= i < s.len(),
        selected(s[i]),
        lookup_parent(s, s[i]) is Some,
        (lookup_parent(s, s[i])->0).world_changed || s[i].independent_changed || s[i].world
            == Some(
            translation_inherited((s[i].independent->0).0, (lookup_parent(s, s[i])->0).world),
        ),
    ensures
        spec_pass(s)[i].world == Some(
            translation_inherited((s[i].independent->0).0, (lookup_parent(s, s[i])->0).world),
        ),
        (spec_pass(s)[i].world->0).translation.x == sum_bits(
            (s[i].independent->0).0.translation.x,
            (lookup_parent(s, s[i])->0).world.translation.x,
        ),
        (spec_pass(s)[i].world->0).translation.y == sum_bits(
            (s[i].independent->0).0.translation.y,
            (lookup_parent(s, s[i])->0).world.translation.y,
        ),
        (spec_pass(s)[i].world->0).translation.z == sum_bits(
            (s[i].independent->0).0.translation.z,
            (lookup_parent(s, s[i])->0).world.translation.z,
        ),
        (spec_pass(s)[i].world->0).rotation == (s[i].independent->0).0.rotation,
        (spec_pass(s)[i].world->0).scale == (s[i].independent->0).0.scale,
{
    assert(spec_pass(s)[i] == next_entity(s, i));
}

/// A root: after one pass, a selected entity whose parent link does not
/// resolve holds its independent placement as its world placement — provided
/// this frame wrote the independent placement, or the world placement was
/// already current.  A root step sums nothing, so the executable pass
/// realises this exactly on every scene.
pub proof fn lemma_root_keeps_independent(s: Seq<SceneEntity>, i: int)
    requires
        0 <= i < s.len(),
        selected(s[i]),
        lookup_parent(s, s[i]) is None,
        s[i].independent_changed || s[i].world == Some((s[i].independent->0).0),
    ensures
        spec_pass(s)[i].world == Some((s[i].independent->0).0),
{
    assert(spec_pass(s)[i] == next_entity(s, i));
}

/// An entity that is not selected — in particular any entity that carries no
/// independent placement — is identical before and after the pass.
pub proof fn lemma_untouched_unless_selected(s: Seq<SceneEntity>, i: int)
    requires
        0 <= i < s.len(),
        !selected(s[i]),
    ensures
        spec_pass(s)[i] == s[i],
{
    assert(spec_pass(s)[i] == next_entity(s, i));
}

/// One entity's step gives the same result when taken from the scene the pass
/// produced: the parent placements it reads were left untouched.
proof fn lemma_step_stable(s: Seq<SceneEntity>, i: int)
    requires
        0 <= i < s.len(),
    ensures
        next_entity(spec_pass(s), i) == spec_pass(s)[i],
{
    let s1 = spec_pass(s);
    assert(s1[i] == next_entity(s, i));
    lemma_next_preserves_shape(s, i);
    lemma_lookup_stable(s, i);
    assert(next_entity(s1, i) == s1[i]);
}

/// Idempotence: with no intervening writes — the change flags and all other
/// inputs as the first pass left them — a second pass reproduces the scene of
/// the first pass exactly.  Stated of the pass's spec; the executable pass
/// realises the spec on well-formed scenes, and the pass preserves
/// well-formedness (`lemma_pass_preserves_wf`).
pub proof fn lemma_pass_idempotent(s: Seq<SceneEntity>)
    ensures
        spec_pass(spec_pass(s)) == spec_pass(s),
{
    let s1 = spec_pass(s);
    assert forall|i: int| 0 <= i < s1.len() implies next_entity(s1, i) == s1[i] by {
        lemma_step_stable(s, i);
    }
    assert(spec_pass(s1) =~= s1);
}

/// Well-formedness survives the pass: it writes no independent placement and
/// no eligible parent's world placement, so the pairs a later pass would sum
/// are the pairs this pass summed.
pub proof fn lemma_pass_preserves_wf(s: Seq<SceneEntity>)
    requires
        scene_wf(s),
    ensures
        scene_wf(spec_pass(s)),
{
    let s1 = spec_pass(s);
    assert forall|i: int| 0 <= i < s1.len() implies #[trigger] entity_wf(s1, i) by {
        assert(entity_wf(s, i));
        lemma_next_preserves_shape(s, i);
        lemma_lookup_stable(s, i);
    }
}

/// Reactivity to the parent: a write to the parent's world placement alone is
/// enough for the pass to rewrite the child's world placement from the
/// inheritance rule and mark it changed.  Stated of the pass's spec, which
/// the executable pass realises on well-formed scenes.
pub proof fn lemma_reacts_to_parent_write(s: Seq<SceneEntity>, i: int)
    requires
        0 <= i < s.len(),
        selected(s[i]),
        lookup_parent(s, s[i]) is Some,
        (lookup_parent(s, s[i])->0).world_changed,
    ensures
        spec_pass(s)[i].world == Some(
            translation_inherited((s[i].independent->0).0, (lookup_parent(s, s[i])->0).world),
        ),
        spec_pass(s)[i].world_changed,
{
    assert(spec_pass(s)[i] == next_entity(s, i));
}

/// Reactivity to the independent placement: a write to it alone is enough for
/// the pass to rewrite the entity's whole world placement and mark it
/// changed, under a parent and at a root alike.  Stated of the pass's spec,
/// which the executable pass realises on well-formed scenes.
pub proof fn lemma_reacts_to_independent_write(s: Seq<SceneEntity>, i: int)
    requires
        0 <= i < s.len(),
        selected(s[i]),
        s[i].independent_changed,
    ensures
        lookup_parent(s, s[i]) matches Some(p) ==> spec_pass(s)[i].world == Some(
            translation_inherited((s[i].independent->0).0, p.world),
        ),
        lookup_parent(s, s[i]) is None ==> spec_pass(s)[i].world == Some((s[i].independent->0).0),
        spec_pass(s)[i].world_changed,
{
    assert(spec_pass(s)[i] == next_entity(s, i));
}

/// The skip gate: when neither the resolved parent's world placement nor the
/// entity's independent placement changed this frame, the pass does not touch
/// the entity — its world placement bits and its change flag included.  The
/// executable pass realises this on every scene: a skip performs no write.
pub proof fn lemma_unchanged_skip(s: Seq<SceneEntity>, i: int)
    requires
        0 <= i < s.len(),
        selected(s[i]),
        !s[i].independent_changed,
        lookup_parent(s, s[i]) matches Some(p) ==> !p.world_changed,
    ensures
        spec_pass(s)[i] == s[i],
{
    assert(spec_pass(s)[i] == next_entity(s, i));
}

} // verus!
