# nixie_clock

Verified core of a four-tube nixie clock built around an STM32L011, a DS3234
real-time clock and a chain of HV5812 high-voltage drivers.

`src/` is the library, checked by Verus:

- `nix::ds3234` — the clock chip's register map, the SPI frames that read and
  write a register, and the encoding of time (BCD) and temperature (10-bit
  two's complement, quarter degrees) in its registers.
- `nix::nixiedigits` — the bit pattern that lights the requested cathodes;
  the bit is cleared with `bitvec`.
- `nix::time`, `nix::clock` — the polling firmware's time, display modes,
  tick counters and time adjustment.
- `nix_rtic::bcd`, `nix_rtic::time` — BCD and decimal bytes, and time units
  that wrap at their base.
- `nix_rtic::buttons` — push-button debouncing.
- `nix_rtic::mode`, `nix_rtic::nixieclock` — the interrupt-driven firmware's
  display modes and the decisions of one clock tick.
- `nix_rtic::ext` — the receiver for frames on the external measurement link.

`app/` holds the firmware around it: board bring-up with `stm32l0xx-hal`, the
SPI and GPIO transactions through `embedded-hal`, and the floating-point
temperature display.
