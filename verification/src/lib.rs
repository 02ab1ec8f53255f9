//! Conversion of rendered PDF pages into one image or one archive, and the
//! request rules that drive it.

pub mod app_state;
pub mod archive;
pub mod codec;
pub mod combine;
pub mod file_name;
pub mod http_post_controller;
pub mod params;
pub mod pdf_converter;
pub mod raster;
pub mod text;
