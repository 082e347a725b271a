//! The first firmware: a polling main loop.
pub mod clock;
pub mod ds3234;
pub mod nixiedigits;
pub mod time;
