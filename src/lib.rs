//! The request logic of a personal website: static assets with extension
//! inference, legacy redirects, WebFinger / NodeInfo / on-demand TLS answers,
//! the security, CORS and courtesy headers, the Gemini capsule's request
//! checks, and the index of the capsule's Ways posts.
pub mod assets;
pub mod capsule;
pub mod config;
pub mod domains;
pub mod headers;
pub mod laws;
pub mod permissions_policy;
pub mod routes;
pub mod status;
pub mod text;
pub mod ways;
pub mod webfinger;
