//! The second firmware: interrupt driven, with BCD-encoded time units.
pub mod bcd;
pub mod buttons;
pub mod ext;
pub mod mode;
pub mod nixieclock;
pub mod time;
