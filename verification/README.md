# cygnus_led

The status LED of a split BLE keyboard, written in Verus.

- `src/rgb_led_state.rs`: colours, events, the bounded blink-pattern queue and
  the indicator state machine `RgbLedState`, with its abstract state
  `LedStateView` and the transition functions `after_event` / `after_tick`
  that the executable code is proved against.
- `src/rgb_led.rs`: the `LedPin` trait, the mapping from keyboard controller
  events to indicator events, and `RgbLedController`, which drives three
  active-low pins from the state machine.
- `src/laws.rs`: properties proved over many events and ticks: consistency is
  kept by every step, sleep darkens and clears, each half's colour rules, the
  queue is first in first out, each blink repeat is lit then dark for its
  tick counts, and every pending blink runs out in exactly its remaining ticks.
- `app/`: the firmware side (nRF pins, the controller channel, the keyboard
  framework's controller traits and entry point).
