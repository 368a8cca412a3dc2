//! Orchestration core of a desktop project generator: builds the command
//! line for an external generator process, interprets what that process
//! printed, resolves output locations and keeps a registry of validated seeds.

pub mod text;
pub mod model;
pub mod args;
pub mod json;
pub mod interpret;
mod clock;
pub mod registry;
pub mod paths;
pub mod files;
pub mod manifest;
pub mod orchestrate;
