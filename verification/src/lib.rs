//! Control core for a physics-simulated pinball table.
//!
//! The library models the scene controllers — a free-orbiting player camera
//! and the discrete reset/nudge actions on the ball and the table — as pure
//! functions over exact fixed-point coordinates.  A host loop (the rendering
//! and physics engines) feeds each frame's input into these functions and
//! carries out the returned transform updates and commands.
//!
//! All lengths are held in micro-units: one world unit is `1_000_000`.

pub mod camera;
pub mod math;
pub mod playfield;
pub mod scene;
