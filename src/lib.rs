//! An in-memory OCI image registry: a content-addressed store of blobs,
//! uploads and manifests, the chunked-upload protocol, and a per-repository
//! event feed that reports every operation.

pub mod buffer;
pub mod channel;
pub mod digest;
pub mod handlers;
pub mod image;
pub mod oci;
pub mod store;
pub mod text;
pub mod types;
