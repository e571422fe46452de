//! A minimal verified web server engine: wire-level HTTP/1.1 types, a
//! request parser, a pattern router with status-override dispatch, and a
//! response serializer. Connection handling and file reading live with the
//! caller; everything here is pure request/response logic.

pub mod handler;
pub mod header;
pub mod method;
pub mod request;
pub mod response;
pub mod serialize;
pub mod server;
pub mod static_files;
pub mod status;
pub mod template;
pub mod text;
