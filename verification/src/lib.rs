//! The identity and thumbnail engine behind a desktop file browser.
//!
//! Given plain-value probes of a filesystem path, the library derives a
//! stable content-addressable identity for the entry (from cheap metadata
//! when complete, from the file's content otherwise), assembles the summary
//! and detail records that listings return, classifies MIME types, and plans
//! thumbnail derivation against a cache keyed by identity. All I/O stays
//! with the caller: the library takes plain values and returns plain values,
//! and every function carries a proved contract.

pub mod digest;
pub mod entry;
pub mod errors;
pub mod identity;
pub mod meta;
pub mod mime;
pub mod numbytes;
pub mod path_codec;
pub mod thumbnail;
