//! Launch support for the Grafana MCP server: settings resolution, release
//! asset selection, binary provisioning and command assembly.
//!
//! The crate performs no I/O. Work that touches the network, the file system
//! or the host is described by [`protocol::Action`] values that the caller
//! performs, reporting what happened as [`protocol::Event`] values.

pub mod cleanup;
pub mod command;
pub mod error;
pub mod launch;
pub mod platform;
pub mod protocol;
pub mod provision;
pub mod release;
pub mod runs;
pub mod settings;
pub mod text;
