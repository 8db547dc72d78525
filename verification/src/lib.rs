//! Scaffolding of new projects from a registry of languages and project types.
//!
//! The library decides and the caller acts: a command line and a registry go in,
//! and a message to show or the steps that create a project come out. Nothing
//! here reads or writes a file or opens a connection.

pub mod argument_processing;
pub mod config;
pub mod defaults;
pub mod error;
pub mod information;
pub mod materialize;
pub mod resolve;
pub mod text;

pub use crate::argument_processing::{create_project, new_parse_arguments, parse_arguments, Outcome};
pub use crate::config::{get_languages, Config, Gitignore, Language, ProjectFile, ProjectType};
pub use crate::defaults::loaded_or_default;
pub use crate::error::Error;
pub use crate::information::{help, info, new_help};
pub use crate::materialize::{materialize, Step};
pub use crate::resolve::{resolve, ResolvedPlan};
pub use crate::text::sanitized_name;
