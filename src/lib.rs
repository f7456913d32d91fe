//! Session and protocol adapter for a translation web service: credential
//! handling, request construction, and decoding of the service's replies.

pub mod credentials;
pub mod decode;
pub mod error;
pub mod html;
pub mod json;
pub mod request;
pub mod session;
pub mod settings;
pub mod text;
