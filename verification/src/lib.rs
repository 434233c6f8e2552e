//! A spinning selection wheel: its configuration, the colours of its sectors
//! and the discrete part of the spin (resting or spinning, which sector is
//! under the pointer, what is announced when a spin ends).
//!
//! The library works on plain values only. Angles, velocities and time are
//! kept by the program that draws the wheel; it hands the library what it
//! measured and acts on what the library decides.

pub mod announce;
pub mod color;
pub mod spin;
pub mod wheel;
