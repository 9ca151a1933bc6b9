//! The search of the glue crate's source files for step and hook functions,
//! and the names that the code generation gives to what it derives from them.

pub mod source;
pub mod discovery;
pub mod glue_paths;
pub mod names;
pub mod glue_codegen;
pub mod glue_args;
pub mod syntax;
pub mod discovery_laws;
