//! Translation-only transform inheritance for a hierarchical scene graph.
//!
//! A child entity that carries an independent placement inherits only the
//! positional component of its parent's world placement: its world translation
//! is the sum of its own translation and the parent's world translation, while
//! its rotation and scale are taken as world-space absolutes.  The propagation
//! pass here runs over a snapshot of the scene after the host's full-affine
//! propagator has finalised the ordinary world placements.

pub mod placement;
pub mod propagate;

pub use placement::IndependentTransform;
pub use placement::IndependentTransformBundle;
pub use placement::IndependentTransformSystem;
pub use placement::Placement;
pub use placement::QuatBits;
pub use placement::Vec3Bits;
pub use propagate::ParentWorld;
pub use propagate::SceneEntity;
pub use propagate::propagate_entity;
pub use propagate::update_independent_transforms;
pub use propagate::with_parent_translation;
