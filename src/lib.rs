//! A virtual platform-level interrupt controller (PLIC) for a guest of a
//! hypervisor.
//!
//! The library decodes trapped accesses to the controller's register window,
//! keeps the virtual pending and active interrupt sets, and says which host
//! register accesses and guest signal changes each access calls for. Whoever
//! embeds the device performs those, under one lock around the whole device.
//!
//! The model has one pending set and one active set, shared by all contexts,
//! and no source is in both. A claim picks the lowest pending id and does not
//! look at enable bits, priorities or thresholds, which are only forwarded to
//! the host controller.

pub mod consts;
pub mod device;
mod error;
pub mod irq_bits;
pub mod laws;
pub mod regmap;
pub mod store;

pub use error::PlicError;
pub use regmap::{classify, Region};
