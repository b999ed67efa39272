//! Geometry shared by the editor components.

pub mod math;
pub mod pixel;
