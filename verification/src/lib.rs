//! Session lifecycle, challenge classification and polling rules for a
//! client of an exam-booking service.
//!
//! The library decides; it does no input or output. Calls to the service
//! are described as plain values for a transport to send, and what the
//! transport brings back is handed to the library as plain values again.

pub mod client;
pub mod error;
pub mod request;
pub mod service;
pub mod text;
pub mod time;
pub mod types;
pub mod utils;
