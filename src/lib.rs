//! Configuration and build orchestration for CMake projects: the settings
//! document, command presets, toolchain and dependency decisions, and the
//! CMake file-API reply model.

pub mod cmd;
pub mod codemodel;
pub mod errors;
pub mod init;
pub mod install;
pub mod project;
pub mod settings;
pub mod setup;
pub mod text;
