//! Presence tracking for a detachable keyboard: which device events are the
//! keyboard's, how a burst of them comes down to one state, and which display
//! layout a change of that state calls for.

pub mod config;
pub mod devpath;
pub mod install;
pub mod layout;
pub mod matcher;
pub mod monitor;
pub mod presence;
pub mod text;
