//! The GATT attribute vocabulary: services, characteristics, descriptors,
//! their property and permission sets, and the events a peripheral emits.

pub mod characteristic;
pub mod descriptor;
pub mod peripheral_event;
pub mod properties;
pub mod service;
