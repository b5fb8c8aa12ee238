//! A verified parser for DXBC shader containers.
//!
//! The crate decodes a DXBC binary container into structured reflection
//! data and computes the container's integrity digest:
//!
//! * [`binary::Decoder`] — a bounds-checked cursor over an immutable byte
//!   buffer; every read is checked against the cursor's current scope
//!   bound, so a malformed chunk or nested record can never read into, or
//!   past, neighboring data.
//! * [`binary::Parser`] — the chunk-dispatch loop: it reads the header and
//!   chunk table and drives a [`binary::Consumer`] through an event
//!   protocol with cooperative stop/error control flow.
//! * [`dr`] — the structured records extracted from recognized chunks, in
//!   particular the resource-definition (RDEF) reflection graph of
//!   constant buffers, variables, and nested type descriptors.
//! * [`checksum`] — the container's modified-MD5 integrity digest,
//!   bit-exact to the container convention.

pub mod binary;
pub mod checksum;
pub mod dr;
mod md5;

pub use checksum::checksum;
