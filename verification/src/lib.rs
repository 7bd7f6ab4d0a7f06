//! A layered image compositor for a screenshot session.
//!
//! The library models an ordered stack of visual layers above a base
//! screenshot: a layout resolver places each layer inside the container,
//! and a compositor flattens the staged overlay into the base raster at
//! its native resolution.

pub mod compose;
pub mod errors;
pub mod formats;
pub mod geometry;
pub mod imaging;
pub mod layers;
pub mod layout;
pub mod naming;
pub mod raster;
pub mod session;
pub mod shortcuts;
