//! Verified core of a small HTTP/1.0 static file server.
//!
//! The library holds everything the server decides or computes per
//! connection: parsing the request line, resolving the requested path
//! safely beneath a root directory, the method/status policy, the
//! extension-to-MIME table, and the header block that is written back.
//! The surrounding program supplies the filesystem probes and the socket.

pub mod content_type;
pub mod handler;
pub mod headers;
pub mod paths;
pub mod policy;
pub mod request;
pub mod text;
