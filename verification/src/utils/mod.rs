pub mod file;
pub mod path;
pub mod text;
