//! Strux: turns a structured markdown description into file actions
//! (create, delete, move) and applies them under a base directory.

pub mod cli;
pub mod constants;
pub mod core_types;
pub mod errors;
pub mod parser;
pub mod text;
pub mod processor;
pub mod report;
