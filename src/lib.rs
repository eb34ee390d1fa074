//! The interactive search session of a shell-history browser: a state
//! machine over semantic events, a batch wrapper that decides when the result
//! list must be refreshed, the key table, and the geometry of the screen.

pub mod cursor;
pub mod keys;
pub mod laws;
pub mod layout;
pub mod session;
pub mod settings;
pub mod text;
