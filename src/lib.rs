//! Real-time kernel trace session handling and self-describing event decoding.
//!
//! The library holds the decisions of a trace consumer: how the operating
//! system's status codes map to errors, how the session properties block is
//! laid out, when handles are released, how the two-phase size query runs, and
//! how an event payload is walked property by property into a name/value map.
//! The operating-system calls themselves are made by the caller, which hands
//! the library plain values and acts on what comes back.
pub mod handle;
pub mod process;
pub mod projector;
pub mod status;

pub mod tdh;
pub mod consumer;
pub mod controller;
pub mod session;
