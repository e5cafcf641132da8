//! The runtime library that interpreted programs call.

pub mod rng;
pub mod buffers;
pub mod images;
pub mod image_impls;
pub mod graphics;
pub mod window;
pub mod time;
pub mod context;
