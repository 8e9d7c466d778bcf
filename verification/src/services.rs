//! The analyses: what each decides around the work that is done elsewhere.

pub mod clip;
pub mod exif_reader;
pub mod geo;
pub mod image_loader;
pub mod ocr;
