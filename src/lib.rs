//! Content-derived identifiers: the SHA-256 digest of a value's canonical
//! encoding, kept as a 256-bit integer and rendered as lowercase hex.
pub mod hex_text;
pub mod digest;
