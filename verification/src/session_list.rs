//! The list of sessions beside the stage: its rows, their order and their menus.

pub mod clock;
pub mod conversation;
pub mod decoration;
pub mod drag;
pub mod menus;
pub mod new_session;
pub mod quota;
pub mod row;
pub mod sidebar;
