//! Installing, removing and detecting Smelt's hooks in the configuration of coding agents.

pub mod antigravity;
pub mod claude;
pub mod copilot;
pub mod cursor;
pub mod dialect;
pub mod document;
pub mod events;
pub mod fitting;
pub mod handlers;
pub mod hook_file;
pub mod kiro;
pub mod list_laws;
pub mod locations;
pub mod opencode;
pub mod reading_back;
pub mod registry;
