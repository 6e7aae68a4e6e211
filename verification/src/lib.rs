//! Host-side logic of a serverless JavaScript worker runtime: the choices the
//! runtime makes around the script engine (which extensions it loads, how it
//! bootstraps a worker, how it hands a task to the script, how the script's
//! log lines and replies travel back), stated and proved here.

pub mod boot;
pub mod decimal;
pub mod env;
pub mod ext;
pub mod extensions;
pub mod permissions;
pub mod runtime;
pub mod task;
