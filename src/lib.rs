//! Sends one HTTP request and prints the response's header fields: the
//! request is built from a target and method flags, and the header block is
//! rendered as aligned name/value lines.
pub mod method;
pub mod render;
pub mod request;
pub mod url;
