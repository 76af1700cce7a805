pub mod build_project;
pub mod create;
pub mod install;
pub mod root;
pub mod uninstall;
