//! Protocol core for a voice-assistant speaker bridged to remote controllers:
//! message envelopes, request/response correlation, command dispatch, the
//! connection lifecycle, background task bookkeeping, TLS configuration
//! decisions, and the log-tail detectors with their debounce rules.

pub mod client;
pub mod clock;
pub mod data;
pub mod instruction;
pub mod interrupt;
pub mod json;
pub mod message;
pub mod rpc;
pub mod state;
pub mod table;
pub mod task;
pub mod text;
pub mod tls;
pub mod tls_native;
