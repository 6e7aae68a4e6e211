//! Host-side halves of the extensions the worker runtime installs into the
//! script engine: the events it hands to the script and what comes back.

pub mod event_scheduled;
pub mod fetch_init;
pub mod permissions;
pub mod runtime;
