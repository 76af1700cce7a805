pub mod operation;
