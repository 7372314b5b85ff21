//! A timeout-guarded request handler, modelled and verified.
//!
//! The library captures the one contract of a server that races a slow
//! handler against a watchdog timer: whichever delay elapses first decides
//! the outcome. The race decision, the HTTP-level response it produces, the
//! route table, and the independence of concurrent requests are all stated
//! and proved here; the surrounding async plumbing (sockets, sleeps,
//! logging) lives outside the verified core.

pub mod race;
pub mod server;
