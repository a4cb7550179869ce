//! Values shared by every kind of model.

pub mod model;
pub mod structs;
