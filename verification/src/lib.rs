//! Lifecycle supervisor for a locally spawned sidecar worker process.
//!
//! A desktop application depends on a helper worker process that it must
//! launch itself: as an interpreted script while developing, as a packaged
//! executable once installed.  This crate holds the decision core of that
//! supervision: resolving where the worker artifact lives, planning how to
//! spawn it, polling a loopback liveness endpoint until the worker is ready,
//! keeping the single live worker handle under an exclusive registry, and the
//! idempotent `start`/`stop` state machine that ties those together.  All
//! operating-system effects (existence checks, spawning, connecting,
//! sleeping, killing) are performed by the embedding host, which feeds their
//! outcomes back into these verified transition functions as plain values.

pub mod fspath;
pub mod launcher;
pub mod payloads;
pub mod probe;
pub mod registry;
pub mod resolver;
pub mod supervisor;
pub mod tray;
pub mod window_effect;
