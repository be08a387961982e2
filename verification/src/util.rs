//! Utilities: text handling, command line answers and error hints.
pub mod cli;
pub mod error;
pub mod text;
