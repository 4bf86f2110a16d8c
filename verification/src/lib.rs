//! Loader core for a dynamically resolved Steamworks runtime.
//!
//! The crate decides *what* has to be asked of the platform loader and of the
//! native runtime, and what every answer means. It never performs a foreign
//! call itself: a driver opens the module, resolves the symbols it is asked
//! for, invokes the entry points it is handed, and feeds the answers back.

pub mod client;
pub mod error;
pub mod loader;
pub mod module;
pub mod platform;
pub mod resolver;
pub mod steamapps;
pub mod symbols;
