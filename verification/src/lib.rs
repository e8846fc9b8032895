//! Planar motion and mouse-look controllers for a keyboard/mouse-driven
//! player entity, in fixed-point arithmetic.
//!
//! All physical quantities are signed 64-bit integers in micro-units:
//! one world unit (or one radian, or one second) is `SCALE` (1 000 000)
//! micro-units. Every update function states exactly what it computes, so
//! the per-frame behaviour of a controller is a proved fact, not a habit.

pub mod look;
pub mod motion;
pub mod units;
