//! Genesis synchronisation and payload validation for a rollup node extension.
//!
//! The library holds the decisions of the extension: when the primary chain has
//! reached the rollup's anchor block, which heights are acknowledged to the host,
//! how a derived payload is judged, and how the pipeline reacts to each outcome.
//! The host channel, the network and the configuration files stay outside.
pub mod anchor;
pub mod driver;
pub mod gate;
pub mod genesis_wait;
pub mod validation;
