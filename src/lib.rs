//! Orchestration core for a JPEG XL codec engine: signature probing,
//! pixel-format negotiation, buffer sizing and the decode and encode
//! session state machines.

pub mod decode;
pub mod encode;
pub mod error;
pub mod format;
pub mod parallel;
pub mod signature;
