//! Decoder for the fixed 64-byte header of a 64-bit ELF object file.
//!
//! The crate validates the magic signature and minimum length of a byte
//! buffer, decodes the packed fields of the header into typed values, and
//! renders the decoded header as the conventional human-readable report.

pub mod fields;
pub mod header;
pub mod render;
