//! Upload, conversion and download pipeline of a voice-conversion service.
//!
//! The library holds the decisions of the service: which artist profile a key
//! names, which multipart fields are kept, where an upload is stored and where
//! its conversion lands, how the external tool is invoked and how its exit is
//! judged, and which path a download request may read. The HTTP server, the
//! filesystem and the child process stay with the caller.

pub mod artist;
pub mod convert;
pub mod error;
pub mod ingest;
pub mod paths;
pub mod text;
