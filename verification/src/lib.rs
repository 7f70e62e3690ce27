//! Host-side access to USB Video Class devices: descriptor parsing, typed controls and
//! stream negotiation, kept apart from the USB transport that carries them.
//!
//! Dealing with a device entity `Ent`:
//! - `EntDesc` describes an entity's static properties, read from the device descriptors.
//! - `EntId` is a small `Copy` type that refers to an `EntDesc`.
//! - `Ent<'a>` grants access to the entity's controls, borrowing the opened device.

pub mod camera;
pub mod control;
pub mod detect;
pub mod device;
pub mod error;
pub mod processing_unit;
pub mod streaming_interface;
pub mod topo;
pub mod util;

pub use device::{Request, UvcDevice};
pub use error::Error;
