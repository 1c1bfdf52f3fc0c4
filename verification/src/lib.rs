//! Verified core of a hardware-aware launcher for local language models.

pub mod catalog;
pub mod compat;
pub mod digest;
pub mod download;
pub mod error;
pub mod layout;
pub mod machine;
pub mod text;
pub mod verify;
pub mod logging;
pub mod runtime;
pub mod setup;
pub mod commands;
