//! The synchronisation core of a feed reader that works against a local
//! store or, where one is configured, against an upstream server.
//!
//! The library decides and never waits: it builds the requests to send,
//! says what a reply means, runs the token through its life, filters what a
//! polling pass read against the watermark, and lists what follows a pass.
//! Sending, storing and showing are left to the application.

pub mod auth;
pub mod client;
pub mod error;
pub mod feeds;
pub mod gateway;
pub mod items;
pub mod model;
pub mod session;
pub mod source;
pub mod text;
pub mod time;
pub mod watermark;
pub mod worker;
