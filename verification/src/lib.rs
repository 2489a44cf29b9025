//! A verified core of a Bluetooth mesh node stack: mesh model message
//! encoding and decoding, the provisioning of a device, the provisioning link
//! over the advertising bearer, the upper and lower transport layers
//! (encryption, segmentation and reassembly), replay protection, transmit
//! queueing and the node's configuration tables.

pub mod error;
pub mod buffer;
pub mod crypto;
pub mod address;
pub mod chunks;
pub mod common;
pub mod models;
pub mod keys;
pub mod driver;
