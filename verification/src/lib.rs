//! Core logic of an in-process automation shim: a fixed-layout shared-memory
//! channel between an injected client and an automation host, the
//! window-procedure hook that rewrites and forwards input messages, the
//! frame-capture pipeline's double-buffered readback bookkeeping, and the
//! synthesis of legacy key/mouse window messages.
//!
//! Everything here is pure logic over plain values; the operating-system and
//! graphics calls that surround it live outside this crate.

pub mod frame;
pub mod hook;
pub mod inject;
pub mod input;
pub mod messages;
pub mod shm;
pub mod sync;
pub mod target;
pub mod window;
pub mod wndproc;
