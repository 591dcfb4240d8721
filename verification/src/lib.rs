//! The verified core of the RigOS agent runtime.
pub mod text;
pub mod digest;
pub mod json;
pub mod ids;
pub mod state;
pub mod engine;
pub mod sandbox;
pub mod protocol;
pub mod policy;
pub mod registry;
pub mod config;
pub mod models;
pub mod router;
pub mod skills;
pub mod api;
