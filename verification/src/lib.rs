pub mod builder;
pub mod cli;
pub mod config;
pub mod cpm_core;
pub mod utils;
