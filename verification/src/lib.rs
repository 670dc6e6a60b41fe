//! A broker library for virtual game-controller devices: wire types, report
//! packing, the driver ABI, handle bookkeeping, update coalescing, and the
//! session protocol, with machine-checked contracts.

pub mod backend;
pub mod broker;
pub mod client;
pub mod codec;
pub mod decimal;
pub mod device;
pub mod ioctl;
pub mod mock;
pub mod pump;
pub mod registry;
pub mod report;
pub mod wire;
