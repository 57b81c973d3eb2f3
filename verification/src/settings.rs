//! The settings windows: what they show, and what their controls do.

pub mod appearance;
pub mod editors;
pub mod launch;
pub mod maintenance;
pub mod models;
pub mod naming;
pub mod nav;
pub mod notifications;
pub mod pi_auth;
pub mod plugins;
pub mod qr;
pub mod refresh;
pub mod remote;
pub mod search;
pub mod shortcuts;
pub mod update;
pub mod window;
