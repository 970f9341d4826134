use independent_transform::IndependentTransform;
use independent_transform::IndependentTransformBundle;
use independent_transform::ParentWorld;
use independent_transform::Placement;
use independent_transform::QuatBits;
use independent_transform::SceneEntity;
use independent_transform::Vec3Bits;
use independent_transform::propagate_entity;
use independent_transform::update_independent_transforms;

fn v3(x: f32, y: f32, z: f32) -> Vec3Bits {
    Vec3Bits { x: x.to_bits(), y: y.to_bits(), z: z.to_bits() }
}

fn quat(x: f32, y: f32, z: f32, w: f32) -> QuatBits {
    QuatBits { x: x.to_bits(), y: y.to_bits(), z: z.to_bits(), w: w.to_bits() }
}

fn placement(translation: Vec3Bits, rotation: QuatBits, scale: Vec3Bits) -> Placement {
    Placement { translation, rotation, scale }
}

fn identity_quat() -> QuatBits {
    quat(0.0, 0.0, 0.0, 1.0)
}

fn unit_scale() -> Vec3Bits {
    v3(1.0, 1.0, 1.0)
}

/// An entity that carries an independent placement (and a world slot).
fn independent_entity(ind: Placement, changed: bool, parent: Option<usize>) -> SceneEntity {
    SceneEntity {
        world: Some(placement(v3(0.0, 0.0, 0.0), identity_quat(), unit_scale())),
        world_changed: false,
        independent: Some(IndependentTransform(ind)),
        independent_changed: changed,
        has_local: false,
        parent,
    }
}

/// An ordinary entity whose world placement the host's full-affine propagator
/// already produced.
fn host_entity(world: Placement, world_changed: bool, parent: Option<usize>) -> SceneEntity {
    SceneEntity {
        world: Some(world),
        world_changed,
        independent: None,
        independent_changed: false,
        has_local: true,
        parent,
    }
}

#[test]
fn identity_placement_values() {
    let id = Placement::identity();
    assert_eq!(id.translation, v3(0.0, 0.0, 0.0));
    assert_eq!(id.rotation, identity_quat());
    assert_eq!(id.scale, unit_scale());
}

#[test]
fn default_independent_is_identity() {
    let d: IndependentTransform = Default::default();
    assert_eq!(d, IndependentTransform(Placement::identity()));
}

#[test]
fn conversions_are_mutual() {
    let p = placement(v3(1.0, 2.0, 3.0), quat(0.1, 0.2, 0.3, 0.9), v3(2.0, 2.0, 2.0));
    let ind = IndependentTransform::from(p);
    assert_eq!(ind.0, p);
    let back = Placement::from(ind);
    assert_eq!(back, p);
}

#[test]
fn bundle_builders() {
    let p = placement(v3(7.0, 8.0, 9.0), identity_quat(), unit_scale());
    let b = IndependentTransformBundle::from_independent_transform(IndependentTransform(p));
    assert_eq!(b.independent, IndependentTransform(p));
    assert_eq!(b.global, Placement::identity());
    let id = IndependentTransformBundle::identity();
    assert_eq!(id.independent, IndependentTransform(Placement::identity()));
    assert_eq!(id.global, Placement::identity());
    let from_placement = IndependentTransformBundle::from(p);
    assert_eq!(from_placement.independent, IndependentTransform(p));
    let from_ind = IndependentTransformBundle::from(IndependentTransform(p));
    assert_eq!(from_ind.independent, IndependentTransform(p));
}

/// Single child, rotated parent: the child keeps its own rotation and scale
/// and only sums translations; full-affine inheritance would have put it at
/// (10, 10, 0) with rotated, scaled axes.
#[test]
fn single_child_rotated_parent() {
    let half_sqrt = 0.5f32.sqrt();
    let parent_world = placement(
        v3(10.0, 0.0, 0.0),
        quat(0.0, 0.0, half_sqrt, half_sqrt),
        v3(2.0, 2.0, 1.0),
    );
    let child_ind = placement(v3(5.0, 0.0, 0.0), identity_quat(), unit_scale());
    let mut scene = vec![
        host_entity(parent_world, true, None),
        independent_entity(child_ind, false, Some(0)),
    ];
    update_independent_transforms(&mut scene);
    let w = scene[1].world.unwrap();
    assert_eq!(w.translation, v3(15.0, 0.0, 0.0));
    assert_eq!(w.rotation, identity_quat());
    assert_eq!(w.scale, v3(1.0, 1.0, 1.0));
    assert!(scene[1].world_changed);
    // not the full-affine result
    assert_ne!(w.translation, v3(10.0, 10.0, 0.0));
    // the parent itself is untouched
    assert_eq!(scene[0].world, Some(parent_world));
}

/// Root entity: its world placement becomes its independent placement.
#[test]
fn root_entity() {
    let ind = placement(v3(3.0, 4.0, 5.0), identity_quat(), v3(2.0, 2.0, 2.0));
    let mut scene = vec![independent_entity(ind, true, None)];
    update_independent_transforms(&mut scene);
    assert_eq!(scene[0].world, Some(ind));
}

/// Sibling independence: an independent child and a default child at the same
/// offset coincide while the parent is unrotated, and part when it rotates.
#[test]
fn sibling_independence() {
    let origin = placement(v3(0.0, 0.0, 0.0), identity_quat(), unit_scale());
    let a_ind = placement(v3(1.0, 0.0, 0.0), identity_quat(), unit_scale());
    // the host's full-affine pass has already placed B at the parent's frame offset
    let b_world = placement(v3(1.0, 0.0, 0.0), identity_quat(), unit_scale());
    let mut scene = vec![
        host_entity(origin, true, None),
        independent_entity(a_ind, true, Some(0)),
        host_entity(b_world, true, Some(0)),
    ];
    update_independent_transforms(&mut scene);
    assert_eq!(scene[1].world.unwrap().translation, scene[2].world.unwrap().translation);

    // rotate the parent 90 degrees about Z: the host recomputes B, not A's inputs
    let half_sqrt = 0.5f32.sqrt();
    let rotated = placement(
        v3(0.0, 0.0, 0.0),
        quat(0.0, 0.0, half_sqrt, half_sqrt),
        unit_scale(),
    );
    let b_rotated = placement(v3(0.0, 1.0, 0.0), quat(0.0, 0.0, half_sqrt, half_sqrt), unit_scale());
    let mut scene2 = vec![
        host_entity(rotated, true, None),
        independent_entity(a_ind, false, Some(0)),
        host_entity(b_rotated, true, Some(0)),
    ];
    update_independent_transforms(&mut scene2);
    let a_t = scene2[1].world.unwrap().translation;
    let b_t = scene2[2].world.unwrap().translation;
    assert_eq!(a_t, v3(1.0, 0.0, 0.0));
    assert_eq!(b_t, v3(0.0, 1.0, 0.0));
    assert_ne!(a_t, b_t);
    assert_eq!(scene2[1].world.unwrap().rotation, identity_quat());
}

/// Swap at runtime: once the independent placement is replaced by a default
/// local placement, this pass no longer touches the entity, so it follows the
/// host's full-affine result.
#[test]
fn swap_at_runtime() {
    let ind = placement(v3(5.0, 0.0, 0.0), identity_quat(), unit_scale());
    let parent_world = placement(v3(10.0, 0.0, 0.0), identity_quat(), unit_scale());
    let mut scene = vec![
        host_entity(parent_world, true, None),
        independent_entity(ind, true, Some(0)),
    ];
    update_independent_transforms(&mut scene);
    assert_eq!(scene[1].world.unwrap().translation, v3(15.0, 0.0, 0.0));

    // the swap: same numeric fields, now a default local placement; the host's
    // full-affine pass has produced the composed world placement
    let half_sqrt = 0.5f32.sqrt();
    let full_affine = placement(
        v3(10.0, 10.0, 0.0),
        quat(0.0, 0.0, half_sqrt, half_sqrt),
        v3(2.0, 2.0, 1.0),
    );
    let mut swapped = vec![
        host_entity(parent_world, true, None),
        host_entity(full_affine, true, Some(0)),
    ];
    update_independent_transforms(&mut swapped);
    assert_eq!(swapped[1].world, Some(full_affine));
}

/// Unchanged skip: with no writes anywhere, the pass leaves the scene
/// byte-identical and raises no change flag.
#[test]
fn unchanged_skip() {
    let parent_world = placement(v3(10.0, 0.0, 0.0), identity_quat(), unit_scale());
    let ind = placement(v3(5.0, 0.0, 0.0), identity_quat(), unit_scale());
    let mut child = independent_entity(ind, false, Some(0));
    child.world = Some(placement(v3(15.0, 0.0, 0.0), identity_quat(), unit_scale()));
    let scene_before = vec![host_entity(parent_world, false, None), child];
    let mut scene = scene_before.clone();
    update_independent_transforms(&mut scene);
    assert_eq!(scene, scene_before);
    assert!(!scene[1].world_changed);
}

/// Idempotence: a second pass with no intervening writes reproduces the first
/// pass's scene exactly.
#[test]
fn pass_is_idempotent() {
    let half_sqrt = 0.5f32.sqrt();
    let parent_world = placement(
        v3(10.0, 0.0, 0.0),
        quat(0.0, 0.0, half_sqrt, half_sqrt),
        v3(2.0, 2.0, 1.0),
    );
    let mut scene = vec![
        host_entity(parent_world, true, None),
        independent_entity(placement(v3(5.0, 0.0, 0.0), identity_quat(), unit_scale()), true, Some(0)),
        independent_entity(placement(v3(3.0, 4.0, 5.0), identity_quat(), unit_scale()), true, None),
        host_entity(parent_world, false, Some(0)),
    ];
    update_independent_transforms(&mut scene);
    let once = scene.clone();
    update_independent_transforms(&mut scene);
    assert_eq!(scene, once);
}

/// Seven-spoke scene: seven default children sit on a circle of radius 3 * 64,
/// each carrying an independent child at zero offset.  After a quarter-turn of
/// the centre, the host has rotated the default children; the independent
/// children follow their parents' positions but keep identity rotation.
#[test]
fn seven_spoke_scene() {
    let radius = 3.0f32 * 64.0;
    let half_sqrt = 0.5f32.sqrt();
    let centre = placement(
        v3(0.0, 0.0, 0.0),
        quat(0.0, 0.0, half_sqrt, half_sqrt),
        unit_scale(),
    );
    let mut scene = vec![host_entity(centre, true, None)];
    let mut spoke_parents: Vec<usize> = Vec::new();
    for i in 0..7 {
        let angle = (i as f32) * std::f32::consts::PI / 7.0;
        // after the quarter-turn, the host has moved the default child here
        let rotated = (angle + std::f32::consts::FRAC_PI_2).sin_cos();
        let world = placement(
            v3(radius * rotated.1, radius * rotated.0, 0.0),
            quat(0.0, 0.0, half_sqrt, half_sqrt),
            unit_scale(),
        );
        scene.push(host_entity(world, true, Some(0)));
        spoke_parents.push(scene.len() - 1);
    }
    for &p in &spoke_parents {
        let ind = placement(v3(0.0, 0.0, 0.0), identity_quat(), unit_scale());
        scene.push(independent_entity(ind, false, Some(p)));
    }
    update_independent_transforms(&mut scene);
    for (k, &p) in spoke_parents.iter().enumerate() {
        let child = scene[8 + k];
        let parent_world = scene[p].world.unwrap();
        let w = child.world.unwrap();
        // translation orbits with the parent
        let px = f32::from_bits(parent_world.translation.x);
        let py = f32::from_bits(parent_world.translation.y);
        assert_eq!(f32::from_bits(w.translation.x), 0.0 + px);
        assert_eq!(f32::from_bits(w.translation.y), 0.0 + py);
        // rotation stays identity
        assert_eq!(w.rotation, identity_quat());
    }
    // the spoke originally at (+radius, 0, 0) now stands at (0, +radius, 0):
    // its parent is the first spoke, whose angle was 0
    let first = scene[8].world.unwrap();
    let x = f32::from_bits(first.translation.x);
    let y = f32::from_bits(first.translation.y);
    assert!(x.abs() < 1e-4 * radius);
    assert!((y - radius).abs() < 1e-4 * radius);
    assert_eq!(first.rotation, identity_quat());
}

/// An orphan parent link (out of range) falls through to the root rule.
#[test]
fn orphan_parent_link() {
    let ind = placement(v3(3.0, 4.0, 5.0), identity_quat(), unit_scale());
    let mut scene = vec![independent_entity(ind, true, Some(17))];
    update_independent_transforms(&mut scene);
    assert_eq!(scene[0].world, Some(ind));
}

/// A parent that itself carries an independent placement is not an eligible
/// parent: the child falls through to the root rule.
#[test]
fn independent_parent_is_not_eligible() {
    let parent_ind = placement(v3(10.0, 0.0, 0.0), identity_quat(), unit_scale());
    let child_ind = placement(v3(5.0, 0.0, 0.0), identity_quat(), unit_scale());
    let mut scene = vec![
        independent_entity(parent_ind, true, None),
        independent_entity(child_ind, true, Some(0)),
    ];
    update_independent_transforms(&mut scene);
    assert_eq!(scene[0].world, Some(parent_ind));
    assert_eq!(scene[1].world, Some(child_ind));
}

/// An entity that carries both a default local placement and an independent
/// placement is excluded from the pass.
#[test]
fn mixed_placements_are_excluded() {
    let ind = placement(v3(5.0, 0.0, 0.0), identity_quat(), unit_scale());
    let mut mixed = independent_entity(ind, true, None);
    mixed.has_local = true;
    let before = mixed;
    let mut scene = vec![before];
    update_independent_transforms(&mut scene);
    assert_eq!(scene[0], before);
}

/// An entity without a world placement slot is skipped.
#[test]
fn missing_world_slot_is_skipped() {
    let ind = placement(v3(5.0, 0.0, 0.0), identity_quat(), unit_scale());
    let mut slotless = independent_entity(ind, true, None);
    slotless.world = None;
    let before = slotless;
    let mut scene = vec![before];
    update_independent_transforms(&mut scene);
    assert_eq!(scene[0], before);
}

/// The per-entity step: a changed parent alone triggers the rewrite, and a
/// quiet frame returns no update.
#[test]
fn per_entity_step() {
    let ind = IndependentTransform(placement(
        v3(0.5, 0.0, -2.0),
        quat(0.1, 0.2, 0.3, 0.9),
        v3(3.0, 3.0, 3.0),
    ));
    let parent = ParentWorld {
        world: placement(v3(0.25, 1.0, 2.0), identity_quat(), unit_scale()),
        world_changed: true,
    };
    let up = propagate_entity(&ind, false, Some(parent)).unwrap();
    assert_eq!(up.translation, v3(0.75, 1.0, 0.0));
    assert_eq!(up.rotation, ind.0.rotation);
    assert_eq!(up.scale, ind.0.scale);

    let quiet = ParentWorld { world: parent.world, world_changed: false };
    assert_eq!(propagate_entity(&ind, false, Some(quiet)), None);
    assert_eq!(propagate_entity(&ind, false, None), None);
    assert_eq!(propagate_entity(&ind, true, None), Some(ind.0));
}

/// A translation component with a NaN operand, or summing opposite
/// infinities, comes out as some NaN; the well-behaved component and the
/// rotation and scale are still exact.
#[test]
fn nan_and_opposite_infinity_sums() {
    let ind = placement(
        Vec3Bits {
            x: f32::NAN.to_bits(),
            y: f32::INFINITY.to_bits(),
            z: 1.0f32.to_bits(),
        },
        quat(0.1, 0.2, 0.3, 0.9),
        v3(2.0, 2.0, 2.0),
    );
    let parent = ParentWorld {
        world: placement(
            Vec3Bits {
                x: 1.0f32.to_bits(),
                y: f32::NEG_INFINITY.to_bits(),
                z: 2.0f32.to_bits(),
            },
            identity_quat(),
            unit_scale(),
        ),
        world_changed: true,
    };
    let w = propagate_entity(&IndependentTransform(ind), false, Some(parent)).unwrap();
    assert!(f32::from_bits(w.translation.x).is_nan());
    assert!(f32::from_bits(w.translation.y).is_nan());
    assert_eq!(w.translation.z, 3.0f32.to_bits());
    assert_eq!(w.rotation, ind.rotation);
    assert_eq!(w.scale, ind.scale);
}

/// An empty scene passes through.
#[test]
fn empty_scene() {
    let mut scene: Vec<SceneEntity> = Vec::new();
    update_independent_transforms(&mut scene);
    assert!(scene.is_empty());
}
