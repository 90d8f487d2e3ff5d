pub mod cxxqt_object;
pub mod digest;
pub mod download;
pub mod file_integrity;
pub mod integrity;
pub mod json;
pub mod resources;
pub mod text;
