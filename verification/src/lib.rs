//! A client for the PocketBase REST and realtime API, with the request
//! construction, JSON framing and realtime record bookkeeping verified.
pub mod admin;
pub mod client;
pub mod collections;
pub mod httpc;
pub mod json;
pub mod logs;
pub mod realtime;
pub mod records;
pub mod rts;
pub mod settings;
