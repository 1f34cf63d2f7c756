//! A verified library for a small loopback socket demo.
//!
//! Four routines exchange one fixed message each over TCP or UDP and print
//! the result. Everything those routines compute — which action a command
//! line selects, the fixed payloads, the address a reply is sent to, and the
//! exact text of every printed line (including the lossy UTF-8 decoding of
//! received bytes) — lives here with a contract. The socket calls themselves
//! stay outside the library.

pub mod dispatch;
pub mod endpoint;
pub mod protocol;
pub mod text;
