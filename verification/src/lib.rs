//! Locating or provisioning the systemd language server binary.
//!
//! The library holds the decisions of the provisioning procedure: which
//! release asset belongs to a platform, where the unpacked binary lives, which
//! directory entries are stale, and in which order the outside work (path
//! lookup, release query, download, pruning) is requested. The outside work
//! itself is performed by the embedding program, which feeds each outcome back
//! into the [`resolver::Resolver`].

pub mod platform;
pub mod release;
pub mod layout;
pub mod error;
pub mod prune;
pub mod install;
pub mod resolver;
pub mod command;
pub mod laws;
