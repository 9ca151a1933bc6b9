//! Glue support for a cucumber test runner: step keywords, hook types,
//! tag expressions, pickle filters and step arguments.

pub mod codegen;
pub mod cuke;
pub mod error;
pub mod filter;
pub mod hook;
pub mod location;
pub mod panic;
pub mod scenario;
pub mod step;
pub mod text;

