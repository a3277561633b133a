//! Scaffolding of C++ projects: the rules that settle which language standard
//! and toolchain a new project uses, the templates of its editor and build
//! files, and the list of files that make it up.

pub mod text;
pub mod standards;
pub mod config;
pub mod template;
pub mod bundle;
pub mod paths;
pub mod project;
