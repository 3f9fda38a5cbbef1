//! Verified core of a small file-sharing gateway: upload keys, content
//! types, the authentication gate, and the decisions of the upload and
//! retrieval handlers over an S3-compatible object store.
pub mod text;
pub mod media;
pub mod naming;
pub mod auth;
pub mod upload;
pub mod retrieve;
pub mod laws;
