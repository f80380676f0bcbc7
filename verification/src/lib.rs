//! Verified core of a browser-profile credential-store reader.
//!
//! The library recovers a profile's master key from its key-store file,
//! decrypts per-value encrypted blobs with AES-256-GCM, maps database rows
//! into typed records by fixed column ordinals, and coerces native column
//! and attribute values into a structured output form.

pub mod crypt;
pub mod keystore;
pub mod extract;
pub mod files;
pub mod records;
pub mod values;
