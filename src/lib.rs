//! Host-side companion library for a macropad: the tag space and packet
//! codec shared with the device firmware, the broadcast bus endpoints, the
//! start/stop lifecycle flag, and the sampling and reaction logic of each
//! provider and consumer.

pub mod data_type;
pub mod codec;
pub mod bus;
pub mod lifecycle;
pub mod date;
pub mod media;
pub mod system;
pub mod encoder;
