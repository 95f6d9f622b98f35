//! Bridge adapter between a host game engine's scripting interpreter and a
//! social-presence client: it plans the scripting registrations, decides what
//! to log at each lifecycle step, and relays per-frame callback outcomes,
//! swallowing transient failures.

pub mod activity;
pub mod logging;
pub mod plugin;
pub mod script;
pub mod session;
