//! Session protocol of a two-peer terminal chat: password-based
//! challenge-response, per-message authenticated framing, and the decisions
//! that keep a duplex link alive across connection failures.
//!
//! Everything here works on plain values. The caller owns sockets, timers and
//! the terminal: it carries out the action a step function returns and reports
//! back what happened as the next event.

pub mod cli;
pub mod client;
pub mod codec;
pub mod digest;
pub mod display;
pub mod server;
