//! Verified core of a web-content extraction service: text rules, cache
//! layout, browser-pool bookkeeping and the request state machines that the
//! service shell in `app/` drives.

pub mod cache;
pub mod client;
pub mod content;
pub mod direct;
pub mod encoding;
pub mod extract;
pub mod laws;
pub mod lifecycle;
pub mod page;
pub mod path;
pub mod pool;
pub mod retry;
pub mod text;
