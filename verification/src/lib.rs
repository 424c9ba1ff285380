//! Request validation, media planning, retry and callback rules of the
//! OpenTube video platform, with their contracts.
pub mod api;
pub mod auth;
pub mod identity;
pub mod laws;
pub mod text;
pub mod transcode;
pub mod video;
