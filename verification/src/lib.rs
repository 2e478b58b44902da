//! Resolution of the ledger language server binary for an editor host.
//!
//! The library decides; the host adapter acts. Every filesystem, network and
//! host call is described by an [`resolver::Action`] that the adapter carries
//! out, and its outcome comes back as an [`resolver::Event`].

pub mod error;
pub mod platform;
pub mod naming;
pub mod release;
pub mod cleanup;
pub mod command;
pub mod resolver;
pub mod runs;
