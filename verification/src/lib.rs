//! Core logic of a small Monte Carlo path-tracing application.
//!
//! The crate verifies the parts of the application that are pure logic over
//! plain values: the shell's state machine ([`session`]), the nearest-hit
//! rule of scene intersection ([`geom`]), the pixel-buffer layout of the
//! render driver ([`render`]), and the toolbar button roles ([`style`]).
//! The floating-point radiance math itself (intersection formulas, shading,
//! tone mapping) lives in the unverified application layer, which feeds its
//! results through the contracts stated here.

pub mod geom;
pub mod render;
pub mod session;
pub mod style;
