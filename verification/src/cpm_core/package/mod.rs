pub mod repository;
