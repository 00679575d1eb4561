//! Core of a keep-alive service: it owns a list of ping targets, a running
//! flag, bookkeeping for the per-target ping loops, and a bounded log of
//! recent events. The controller operations (start, stop, add, remove,
//! reload) and the per-cycle decisions of a ping loop live here; the HTTP
//! transport, the timer and the network calls are left to the surrounding
//! program.

pub mod errors;
pub mod logbuf;
pub mod msg;
pub mod pinger;
pub mod state;
pub mod target;
