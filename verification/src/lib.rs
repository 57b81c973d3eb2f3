//! Settings, agent hooks and session list logic of the Smelt desktop cockpit.

pub mod agent_hooks;
pub mod json;
pub mod promises;
pub mod session_list;
pub mod settings;
pub mod shell;
pub mod text;
