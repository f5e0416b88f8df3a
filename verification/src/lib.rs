//! Core of a command-line client for a remote board-management controller.
//!
//! The library models one authenticated HTTP call: an envelope (method and
//! URL) is built from an API target, an optional one-shot multipart payload
//! may be attached, and a send state machine decides, attempt by attempt,
//! whether a bearer credential is carried and whether a single escalation
//! retry happens after an unauthorized response.  All transport and token
//! I/O is performed by the surrounding program, which feeds the observed
//! outcomes back into the machine.

pub mod platform;
pub mod request;
pub mod send;
pub mod token;
