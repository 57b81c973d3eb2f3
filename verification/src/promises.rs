//! What the library promises of its functions, whatever they are given.
//!
//! Each promise takes what a function was given and what it returned, and says how the two are
//! related.

pub mod accounts;
pub mod appearance;
pub mod documents;
pub mod hook_edits;
pub mod hook_outcomes;
pub mod hook_parts;
pub mod hooks;
pub mod launch;
pub mod lists;
pub mod menus;
pub mod models;
pub mod nav;
pub mod pages;
pub mod picker;
pub mod quota;
pub mod remote;
pub mod rows;
pub mod sidebar;
pub mod texts;
pub mod upkeep;
