//! Gameplay core of a 3D platformer character: one-shot timers, buffered
//! input, the move-speed ramp, the floating-capsule suspension, the
//! jump / coyote-time / regrab controller, the derived locomotion state and
//! the animation transition relay.
//!
//! All quantities are integers. Lengths, velocities, speeds, spring
//! coefficients and gravity scales are fixed-point numbers in thousandths of
//! a unit; forces, products of two of them, are in millionths; durations are
//! nanoseconds.
pub mod timer;
pub mod input;
pub mod motion;
pub mod controller;
pub mod camera;
pub mod animation;
pub mod player;
pub mod collision;
