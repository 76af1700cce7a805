pub mod collect;
pub mod compiler_trait;
pub mod gpp;
