//! Interaction core of a 3D transform manipulator ("gizmo").
//!
//! Given a camera ray from a pointer device and a current object transform
//! (translation, rotation, scale), the library decides which manipulation
//! handle the pointer is nearest to, and how the transform should change as
//! the pointer moves during an active drag.
//!
//! All geometry is carried out over fixed-point integers: a scalar is an
//! `i64` holding the real value times [`fx::FX_ONE`], and an angle is an
//! `i64` in microdegrees. Transcendental steps (`atan2`, building a unit
//! quaternion from an axis and an angle) cannot be stated exactly over the
//! integers; the host supplies their results as plain values and consumes
//! the axis-angle outputs, while every decision and every accumulation rule
//! lives here, verified.

pub mod angle;
pub mod config;
pub mod geom;
pub mod fx;
pub mod mat4;
pub mod quat;
pub mod rotation;
pub mod scale;
pub mod state;
pub mod subgizmo;
pub mod translation;
pub mod vec3;
