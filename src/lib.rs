//! A line-oriented JSON-RPC engine that serves a small set of tools over a
//! byte stream: message classification, a closed handler registry, request
//! dispatch with response correlation, and the lifecycle hooks around them.
pub mod json;
pub mod message;
pub mod router;
pub mod dispatch;
pub mod encode;
pub mod tools;
pub mod params;
pub mod token;
pub mod protocol;
pub mod lifecycle;
pub mod cli;
