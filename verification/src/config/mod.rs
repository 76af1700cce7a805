pub mod cppdata;
