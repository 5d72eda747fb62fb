//! Model of the state update packet that Soundcore A3954 earbuds send: its
//! byte layout, a verified parser and a verified serializer.

pub mod bytes;
pub mod firmware_version;
pub mod button_configuration;
pub mod structures;
pub mod state_update;
pub mod laws;
