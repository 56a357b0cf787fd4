//! Register-level contract for a memory-mapped SD/MMC host controller.
//!
//! The crate provides three layers, leaves first:
//! - [`regmap`]: the canonical map from symbolic register names to byte
//!   offsets within the controller's register window;
//! - [`flags`]: typed bit-field views over the raw 32-bit words carried by
//!   the control, status and DMA registers;
//! - [`hcon`]: a decoder that turns a raw hardware-capability word into a
//!   structured, human-readable report.
//!
//! Everything here is pure data and bit arithmetic: no I/O, no shared
//! mutable state, no failure modes. Synchronising actual register access is
//! the surrounding driver's concern.

pub mod fields;
pub mod flags;
pub mod hcon;
pub mod regmap;
