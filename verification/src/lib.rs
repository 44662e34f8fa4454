//! Core of a multi-turn conversational agent: a session store with
//! time-to-live eviction and a deterministic dialogue engine.

pub mod message;
pub mod services;
