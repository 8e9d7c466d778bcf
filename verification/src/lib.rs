//! Image analysis middleware: request planning, settings, EXIF GPS
//! extraction and response assembly, with their contracts proved by Verus.

pub mod error;
pub mod handlers;
pub mod queue;
pub mod services;
pub mod text;
