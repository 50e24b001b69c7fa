//! A platform-neutral core for exposing a GATT peripheral (advertiser plus
//! attribute server) over a thread-confined native Bluetooth stack.
//!
//! The crate models the GATT attribute vocabulary (services, characteristics,
//! descriptors, properties and permissions), a correlated command/response
//! channel through which any number of callers drive a single command worker,
//! an ordered event path from the worker back to one subscriber, and the
//! two-phase protocol by which an application answers a read request through a
//! single-use responder. The concrete radio stack stays behind the
//! `worker::NativeAdapter` interface; everything on this side of that
//! interface carries a verified contract.

pub mod channel_model;
pub mod error;
pub mod event_queue;
pub mod gatt;
pub mod response_channel;
pub mod peripheral;
pub mod responder;
pub mod tokio_bridge;
pub mod worker;
pub mod uuid128;
pub mod uuid_text;
