//! Driver core for a chain of MAX7219-controlled 8x8 LED matrices showing a
//! countdown to the next sunrise or sunset.
//!
//! The crate is split along the hardware/logic boundary: `max7219` encodes the
//! wire protocol of the display chain, `dot_matrix` owns the bit-addressed
//! framebuffer spanning all chained segments, `daylight` is the state machine
//! that tracks sunrise/sunset boundaries and retries failed fetches with
//! exponential backoff, and `sunrise_sunset_api` holds the plain data returned
//! by the remote daylight source. All I/O (serial bus, HTTP, clock) lives
//! outside this crate and hands plain values in and out.

pub mod daylight;
pub mod dot_matrix;
pub mod max7219;
pub mod sunrise_sunset_api;
