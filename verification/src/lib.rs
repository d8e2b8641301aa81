//! Toolchain provisioning core: resolving a release, selecting the host
//! asset, naming and preparing the extraction directory, validating and
//! linking the extracted toolchain, and sequencing a whole install under
//! one exclusive lock.
//!
//! All I/O (network, filesystem, subprocesses) is performed by a thin
//! driver outside this crate; the functions here take the outcomes of
//! those operations as plain values and decide every step.

pub mod cli;
pub mod dist;
pub mod error;
pub mod extension;
pub mod fsmodel;
pub mod link;
pub mod release;
pub mod session;
pub mod show;
pub mod text;
pub mod toolchain_cmd;
pub mod utils;
