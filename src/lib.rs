//! Device-side agent of a firmware-update control plane: token signing,
//! channel framing, session decisions and the update pipeline's arithmetic.

pub mod backoff;
pub mod channel;
pub mod client;
pub mod config;
pub mod etf;
pub mod firmware;
pub mod json;
pub mod mtls;
pub mod serial;
pub mod shared_secret;
pub mod text;
