//! Core engine of a runtime-version manager: version model, specifier
//! resolution, remote index parsing, the install pipeline as a state
//! machine, the alias store, and shell integration text generation.

pub mod alias;
pub mod config;
pub mod error;
pub mod input_version;
pub mod install;
pub mod remote_index;
pub mod resolver;
pub mod shell;
pub mod text;
pub mod version;
pub mod version_file;
