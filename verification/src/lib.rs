//! Verified core of a four-tube nixie clock: BCD arithmetic, push-button
//! debouncing, the display-mode state machine, the DS3234 real-time-clock
//! register encoding, the HV5812 tube-driver bit map and the bit-serial
//! parser for the external measurement link.
pub mod nix;
pub mod nix_rtic;
