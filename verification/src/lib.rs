//! Text-polishing pipeline: request construction for a remote
//! generative-language API, response validation and extraction, a typed
//! error taxonomy, and the state machine that bridges one blocking call
//! into a non-blocking driving loop.

pub mod bridge;
pub mod error;
pub mod escape;
pub mod extract;
pub mod json;
pub mod request;
pub mod service;
