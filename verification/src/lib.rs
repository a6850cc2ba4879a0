//! Provider integration and data normalization for a personal reading list.
//!
//! The crate turns the loosely typed records of a remote bookmarking service,
//! and locally entered input, into one canonical item model. It holds the
//! defensive field decoders for the remote wire format, the three-step
//! authentication handshake as an explicit state machine, the builders and
//! decoders for the fetch and add calls, and the local provider adapter.
//! Network transport and argument parsing live outside the library; they hand
//! in plain values and take plain values back.

pub mod auth;
pub mod cli;
pub mod decode;
pub mod error;
pub mod local;
pub mod model;
pub mod pocket;
pub mod web;
