//! Auto-splitter runtime core: the machinery that lets an untrusted,
//! sandboxed guest program observe the memory of a separate target
//! process and drive a speedrun timer, one tick at a time.
//!
//! - [`signature`]: the pattern matcher behind signature scans, with a
//!   wildcard-safe skip table.
//! - [`pointer`]: pointer-path leaf kinds, their wire codes, and
//!   little-endian decoding of leaf values.
//! - [`memory`]: pointer-width arithmetic and a modelled memory image
//!   that path walks are specified against.
//! - [`process`]: the target-process access layer - discovery, module
//!   maps, cross-process reads, scans - and the pointer-path walk.
//! - [`environment`]: the per-runtime state behind the host calls the
//!   guest may make, with the old/current value rotation.
//! - [`runtime`]: the tick-loop lifecycle state machine and the timer
//!   action decision.
//! - [`wasi`]: the decision logic of the minimal guest-environment shim.
//! - [`hotkey`]: the hotkey hook stub for platforms without one.
//!
//! The embedder supplies the sandbox engine, the logs and the clock; it
//! hands this crate plain values and performs the actions the driver
//! decides.

pub mod environment;
pub mod hotkey;
pub mod memory;
pub mod pointer;
pub mod process;
pub mod runtime;
pub mod signature;
pub mod wasi;
