//! Generators and checks with which the formatters are fuzzed.
pub mod emf;
pub mod generate;
pub mod json;
pub mod laws;
pub mod source;
pub mod types;
pub mod writing;
