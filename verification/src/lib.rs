//! Channel-scoped tool and persona policy, verified with Verus.
pub mod command_laws;
pub mod commands;
pub mod formats;
pub mod harbor;
pub mod laws;
pub mod paths;
pub mod policy;
pub mod table;
pub mod text;
pub mod tools;
pub mod uuid_key;
