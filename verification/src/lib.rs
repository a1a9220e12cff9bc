//! Host-side binding of the CLAP `params` extension, written without I/O.
//!
//! A plugin exposes its parameters through a table of optional entry points.
//! This crate decides, for every operation of that table, which remote call
//! a host makes (if any) and what the operation yields once the plugin has
//! answered. Performing the call is left to the caller.

pub mod exchange;
pub mod extension;
pub mod info;
pub mod instance;
pub mod params;
pub mod request;
pub mod text;
