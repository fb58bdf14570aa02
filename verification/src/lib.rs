//! Status LED logic for a split keyboard: a verified colour state machine
//! with a bounded queue of blink patterns, and the glue that drives three
//! active-low GPIO pins from it.

pub mod rgb_led_state;
pub mod laws;
pub mod rgb_led;
