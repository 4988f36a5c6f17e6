//! GuardUpload: content validation and policy decisions for untrusted uploads.
//!
//! Given a byte buffer whose content type has already been sniffed, the
//! library runs a type-specific structural validator on it and merges the
//! finding with the configured policy (size limit, MIME allow/deny lists,
//! per-type constraints) into one ALLOW/WARN/DENY decision plus an ordered
//! trail of the rules that fired.

pub mod cli;
pub mod config;
pub mod decision;
pub mod engine;
pub mod error;
pub mod pattern;
pub mod policy;
pub mod report;
pub mod sniff;
pub mod text;
pub mod validators;
