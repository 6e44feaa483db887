//! Plain values for the request boundary: cookies and response parts.

pub mod cookie;
pub mod response;
