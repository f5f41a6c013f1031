//! Verified core of an OBS source service that vendors the dependencies of
//! Cargo projects: manifest inspection, lockfile reconciliation, the flags of
//! the vendor invocation, the audit gate and the naming of the archive.
pub mod archive;
pub mod audit;
pub mod bulk;
pub mod commands;
pub mod errors;
pub mod lockfile;
pub mod manifest;
pub mod pipeline;
pub mod registry;
pub mod selector;
pub mod services;
pub mod source;
pub mod text;
