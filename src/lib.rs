//! Project-state store for a render coordinator: project initialisation and
//! a content-addressed registry of tracked files.
pub mod commands;
pub mod constants;
pub mod errors;
pub mod model;
pub mod paths;
