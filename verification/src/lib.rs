//! Audio-reactive particle visual effect engine.
//!
//! The engine simulates a bounded population of short-lived particles whose
//! launch velocity tracks a frequency-band magnitude, and turns each frame
//! into a multi-pass compositing plan (particle draw, separable blur over a
//! ping-pong target pair, trail accumulation) that a thin GPU layer executes.
//!
//! All quantities are fixed-point integers: [`fixed::FP`] units equal 1.0,
//! and times are in microseconds. The engine is single-writer: `update`,
//! `resize` and `render` must not be called concurrently for one instance.

pub mod blur;
pub mod chroma;
pub mod compositor;
pub mod fixed;
pub mod particle;
pub mod plan;
pub mod render_target;
pub mod renderer;
pub mod vec2;
