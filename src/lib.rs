//! Crop-selection geometry, navigation state and an image edit pipeline.

pub mod geometry;
pub mod selection;
pub mod overlay;
pub mod image;
pub mod edit;
pub mod nav;
pub mod zoom;
