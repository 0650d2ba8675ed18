//! The decisions of a caching media proxy: which requests are served, where objects live in
//! storage, what is asked of the upstream services, and what is answered.
pub mod config;
pub mod fetch;
pub mod forward;
pub mod headers;
pub mod laws;
pub mod media;
pub mod names;
pub mod object;
pub mod response;
pub mod session;
pub mod steps;
pub mod storage;
pub mod text;
pub mod twitter;
