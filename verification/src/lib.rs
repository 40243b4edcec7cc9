//! Graphics-adapter discovery, selection and device negotiation.
//!
//! The library walks the adapter list a host's graphics factory reports,
//! applies a selection policy (explicit index, software fallback, or
//! first-available), renders a human-readable inventory that marks the
//! selected adapter, and negotiates a logical device at a requested
//! feature level.  Every fallible platform call goes through a diagnostic
//! layer that classifies its status code and renders failures as a single
//! log line.
//!
//! The platform call surface (enumerate, describe, create) is held as a
//! value-level model, so the decision logic is verified for every host a
//! factory could report; a platform binding supplies the real answers.

pub mod adapter;
pub mod diag;
pub mod feature;
pub mod host;
pub mod pipeline;
pub mod policy;
pub mod render;
pub mod status;
pub mod wide;
