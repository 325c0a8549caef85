//! The core of a minimal static file server, with machine-checked contracts.
//!
//! A connection yields one request line. The [`request`] parser splits and
//! decodes it, the [`resolver`] names the file to look up beneath the root
//! and refuses whatever resolves outside it, and the [`response`] builder
//! chooses and lays out the answer. The [`handler`] strings these together
//! for one connection without performing any input or output itself, and
//! [`service`] states what that adds up to.

pub mod config;
pub mod handler;
pub mod request;
pub mod resolver;
pub mod response;
pub mod service;
