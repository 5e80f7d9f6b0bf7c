//! Verified action execution engine for installing and configuring a Nix
//! runtime on a host.
//!
//! The engine turns heterogeneous privileged mutations into uniform units
//! with four phases (plan, describe, execute, revert), a persisted
//! completion state that makes every unit idempotent and resumable,
//! composition of units into trees, and an error model that aggregates
//! partial failures instead of masking them.
//!
//! Every mutation is expressed against an explicit model of the observable
//! host state ([`system::System`]); the host process interprets that model
//! against the real filesystem, init system and disk subsystem.

pub mod action;
pub mod base;
pub mod conf;
pub mod driver;
pub mod errors;
pub mod fetch;
pub mod init_service;
pub mod macos;
pub mod move_store;
pub mod nix_configuration;
pub mod settings;
pub mod shell_profile;
pub mod strutil;
pub mod system;
pub mod table;
