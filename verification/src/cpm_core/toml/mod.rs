pub mod operation;
pub mod rules;
