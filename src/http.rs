//! The client's public surface under one path: the request model and the
//! text decoder.
pub use crate::decode::decode_html;
pub use crate::request::HttpRequest;
