pub mod package;
pub mod toml;
