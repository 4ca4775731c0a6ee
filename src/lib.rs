//! A client library for sharing files through a relay server: short share
//! codes, chunk planning, whole-file digests, and the upload and download
//! state machines that drive the transfer.
pub mod chunk;
pub mod code;
pub mod digest;
pub mod download;
pub mod error;
pub mod upload;
