//! Validation of uploaded mod archives against the loaders and game versions
//! a project declares.

pub mod versions;
pub mod archive;
pub mod manifest;
pub mod validate;
pub mod laws;
pub mod auth;
