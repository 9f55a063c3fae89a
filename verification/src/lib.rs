//! Resolution logic for the Shopware language-server editor extension.
//!
//! The library decides where the language-server binary lives (a cached
//! path, a locally built development binary, or a freshly downloaded
//! release asset), builds the command that launches it, and answers the
//! extension's two fixed help commands. All outside work (file probes,
//! release fetches, downloads) is requested through explicit actions, so
//! the decisions themselves are verified.

pub mod commands;
pub mod errors;
pub mod platform;
pub mod release;
pub mod resolver;
