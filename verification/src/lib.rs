//! A small 2D scene-composition library: it places a camera and three static
//! sprites relative to the screen center, models the asset catalog that hands
//! out texture and sprite-sheet handles (a sheet may only be resolved against
//! a texture that was loaded first), and routes window and key events to a
//! continue-or-terminate decision.
//!
//! The host engine owns the entity store, the asset files, the renderer and
//! the window; this crate only computes placements, handles and decisions as
//! plain values, which a thin adapter feeds to the engine.

pub mod assets;
pub mod router;
pub mod scene;
