//! Client-side logic for a command-line front end to a remote semantic-memory
//! service: endpoint configuration resolution, request construction, response
//! classification, command dispatch decisions, and structured rendering.

pub mod client;
pub mod config;
pub mod dispatch;
pub mod model;
pub mod render;
