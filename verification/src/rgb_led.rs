//! Drives three active-low GPIO pins from the indicator state machine.

use vstd::prelude::*;
use crate::rgb_led_state::{
    color_mask, LedStateView, RgbBleState, RgbColor, RgbConnectionType, RgbLedEvent, RgbLedRole,
    RgbLedState,
};

verus! {

/// A small GPIO abstraction keeps the state machine testable without nRF hardware.
///
/// Besides the level, a pin reports how often it has been written, so that
/// callers can state how many writes they make.
pub trait LedPin {
    /// Whether the pin drives its line high.
    spec fn is_set_high(&self) -> bool;

    /// How many times the pin has been set, counting modulo 2^64.
    spec fn write_count(&self) -> u64;

    fn set_high(&mut self)
        ensures
            final(self).is_set_high(),
            final(self).write_count() == next_count(old(self).write_count()),
    ;

    fn set_low(&mut self)
        ensures
            !final(self).is_set_high(),
            final(self).write_count() == next_count(old(self).write_count()),
    ;
}

/// A write counter after one more write, wrapping at `u64::MAX`.
pub open spec fn next_count(count: u64) -> u64 {
    if count == u64::MAX {
        0
    } else {
        (count + 1) as u64
    }
}

/// `after` is `before` written exactly once more.
pub open spec fn written_once<P: LedPin>(before: P, after: P) -> bool {
    after.write_count() == next_count(before.write_count())
}

/// Whether a colour lights the red channel (bit 0 of its mask).
pub open spec fn red_on(color: RgbColor) -> bool {
    color_mask(color) % 2 == 1
}

/// Whether a colour lights the green channel (bit 1 of its mask).
pub open spec fn green_on(color: RgbColor) -> bool {
    (color_mask(color) / 2) % 2 == 1
}

/// Whether a colour lights the blue channel (bit 2 of its mask).
pub open spec fn blue_on(color: RgbColor) -> bool {
    (color_mask(color) / 4) % 2 == 1
}

/// The pins show `color` on an active-low LED: a channel's pin is low exactly
/// when the colour lights that channel.
pub open spec fn pins_show<R: LedPin, G: LedPin, B: LedPin>(red: R, green: G, blue: B, color: RgbColor) -> bool {
    &&& red.is_set_high() == !red_on(color)
    &&& green.is_set_high() == !green_on(color)
    &&& blue.is_set_high() == !blue_on(color)
}

proof fn lemma_mask_bits(m: u8)
    by (bit_vector)
    ensures
        (m & 1u8 == 0u8) == (m % 2 == 0),
        (m & 2u8 == 0u8) == ((m / 2) % 2 == 0),
        (m & 4u8 == 0u8) == ((m / 4) % 2 == 0),
{
}

/// The controller's link type as the keyboard firmware reports it: 0 is USB, 1 is BLE.
pub open spec fn spec_connection_type_from_code(code: u8) -> RgbConnectionType {
    if code == 0 {
        RgbConnectionType::Usb
    } else if code == 1 {
        RgbConnectionType::Ble
    } else {
        RgbConnectionType::Other
    }
}

pub fn connection_type_from_code(code: u8) -> (t: RgbConnectionType)
    ensures
        t == spec_connection_type_from_code(code),
{
    match code {
        0 => RgbConnectionType::Usb,
        1 => RgbConnectionType::Ble,
        _ => RgbConnectionType::Other,
    }
}

/// The keyboard controller events the indicator listens to, as plain values;
/// every other controller event is `Other`.
#[derive(Clone, Copy, Debug, PartialEq, Eq, Structural)]
pub enum ControllerSignal {
    Battery(u8),
    ChargingState(bool),
    Layer(u8),
    /// The link type code: 0 USB, 1 BLE.
    ConnectionType(u8),
    SplitCentral(bool),
    Sleep(bool),
    /// The BLE profile number and its state.
    BleState(u8, RgbBleState),
    Other,
}

/// The indicator event a controller event becomes, if any.
pub open spec fn spec_map_controller_event(event: ControllerSignal) -> Option<RgbLedEvent> {
    match event {
        ControllerSignal::Battery(level) => Some(RgbLedEvent::Battery(level)),
        ControllerSignal::ChargingState(charging) => Some(RgbLedEvent::ChargingState(charging)),
        ControllerSignal::Layer(layer) => Some(RgbLedEvent::Layer(layer)),
        ControllerSignal::ConnectionType(code) => Some(
            RgbLedEvent::ConnectionType(spec_connection_type_from_code(code)),
        ),
        ControllerSignal::SplitCentral(connected) => Some(RgbLedEvent::SplitCentral(connected)),
        ControllerSignal::Sleep(sleeping) => Some(RgbLedEvent::Sleep(sleeping)),
        ControllerSignal::BleState(_, state) => Some(RgbLedEvent::BleState(state)),
        ControllerSignal::Other => None,
    }
}

pub fn map_controller_event(event: ControllerSignal) -> (mapped: Option<RgbLedEvent>)
    ensures
        mapped == spec_map_controller_event(event),
{
    match event {
        ControllerSignal::Battery(level) => Some(RgbLedEvent::Battery(level)),
        ControllerSignal::ChargingState(charging) => Some(RgbLedEvent::ChargingState(charging)),
        ControllerSignal::Layer(layer) => Some(RgbLedEvent::Layer(layer)),
        ControllerSignal::ConnectionType(code) => Some(
            RgbLedEvent::ConnectionType(connection_type_from_code(code)),
        ),
        ControllerSignal::SplitCentral(connected) => Some(RgbLedEvent::SplitCentral(connected)),
        ControllerSignal::Sleep(sleeping) => Some(RgbLedEvent::Sleep(sleeping)),
        ControllerSignal::BleState(_, state) => Some(RgbLedEvent::BleState(state)),
        ControllerSignal::Other => None,
    }
}

/// The indicator of one keyboard half: its state machine and the three pins of its LED.
pub struct RgbLedController<R, G, B> {
    red: R,
    green: G,
    blue: B,
    state: RgbLedState,
}

impl<R: LedPin, G: LedPin, B: LedPin> RgbLedController<R, G, B> {
    pub closed spec fn wf(&self) -> bool {
        self.state.wf()
    }

    /// The indicator's abstract state.
    pub closed spec fn state_view(&self) -> LedStateView {
        self.state@
    }

    pub closed spec fn red_pin(&self) -> R {
        self.red
    }

    pub closed spec fn green_pin(&self) -> G {
        self.green
    }

    pub closed spec fn blue_pin(&self) -> B {
        self.blue
    }

    /// The pins show the state's current colour.
    pub open spec fn pins_agree(&self) -> bool {
        pins_show(self.red_pin(), self.green_pin(), self.blue_pin(), self.state_view().current_color)
    }

    /// Each pin of `after` is that of `self` written exactly once more.
    pub open spec fn each_pin_written_once(&self, after: Self) -> bool {
        &&& written_once(self.red_pin(), after.red_pin())
        &&& written_once(self.green_pin(), after.green_pin())
        &&& written_once(self.blue_pin(), after.blue_pin())
    }

    pub fn new(red: R, green: G, blue: B, role: RgbLedRole) -> (c: Self)
        ensures
            c.wf(),
            c.state_view() == LedStateView::initial(role),
            c.red_pin() == red,
            c.green_pin() == green,
            c.blue_pin() == blue,
    {
        RgbLedController { red, green, blue, state: RgbLedState::new(role) }
    }

    fn apply_color(&mut self)
        requires
            old(self).wf(),
        ensures
            final(self).wf(),
            final(self).state_view() == old(self).state_view(),
            final(self).pins_agree(),
            old(self).each_pin_written_once(*final(self)),
    {
        let mask = self.state.current_color().mask();
        proof {
            lemma_mask_bits(mask);
        }
        if mask & 0b001 == 0 {
            self.red.set_high();
        } else {
            self.red.set_low();
        }
        if mask & 0b010 == 0 {
            self.green.set_high();
        } else {
            self.green.set_low();
        }
        if mask & 0b100 == 0 {
            self.blue.set_high();
        } else {
            self.blue.set_low();
        }
    }

    /// Hands one controller event to the state machine and shows the result;
    /// events the indicator does not listen to change nothing.
    pub fn process_event(&mut self, event: ControllerSignal)
        requires
            old(self).wf(),
        ensures
            final(self).wf(),
            match spec_map_controller_event(event) {
                Some(mapped) => {
                    &&& final(self).state_view() == old(self).state_view().after_event(mapped)
                    &&& final(self).pins_agree()
                    &&& old(self).each_pin_written_once(*final(self))
                },
                None => *final(self) == *old(self),
            },
    {
        if let Some(mapped) = map_controller_event(event) {
            self.state.handle_event(mapped);
            self.apply_color();
        }
    }

    /// Advances the blink patterns by one tick and shows the result.
    pub fn update(&mut self)
        requires
            old(self).wf(),
        ensures
            final(self).wf(),
            final(self).state_view() == old(self).state_view().after_tick(),
            final(self).pins_agree(),
            old(self).each_pin_written_once(*final(self)),
    {
        self.state.tick();
        self.apply_color();
    }
}


/// Every controller event but `Other` becomes the indicator event of the same
/// kind with the same payload (the BLE profile number aside); link code 0 is
/// USB, 1 is BLE and every other code is another link; `Other` becomes nothing.
pub proof fn controller_events_carry_their_payload(
    level: u8,
    flag: bool,
    layer: u8,
    code: u8,
    profile: u8,
    ble: RgbBleState,
)
    ensures
        spec_map_controller_event(ControllerSignal::Battery(level)) == Some(RgbLedEvent::Battery(level)),
        spec_map_controller_event(ControllerSignal::ChargingState(flag)) == Some(
            RgbLedEvent::ChargingState(flag),
        ),
        spec_map_controller_event(ControllerSignal::Layer(layer)) == Some(RgbLedEvent::Layer(layer)),
        spec_map_controller_event(ControllerSignal::SplitCentral(flag)) == Some(
            RgbLedEvent::SplitCentral(flag),
        ),
        spec_map_controller_event(ControllerSignal::Sleep(flag)) == Some(RgbLedEvent::Sleep(flag)),
        spec_map_controller_event(ControllerSignal::BleState(profile, ble)) == Some(
            RgbLedEvent::BleState(ble),
        ),
        code == 0 ==> spec_map_controller_event(ControllerSignal::ConnectionType(code)) == Some(
            RgbLedEvent::ConnectionType(RgbConnectionType::Usb),
        ),
        code == 1 ==> spec_map_controller_event(ControllerSignal::ConnectionType(code)) == Some(
            RgbLedEvent::ConnectionType(RgbConnectionType::Ble),
        ),
        code >= 2 ==> spec_map_controller_event(ControllerSignal::ConnectionType(code)) == Some(
            RgbLedEvent::ConnectionType(RgbConnectionType::Other),
        ),
        spec_map_controller_event(ControllerSignal::Other) is None,
{
}

/// The LED is active-low: pins showing a colour drive low exactly the pins of
/// the channels it lights, so off leaves all three high and white all three low.
pub proof fn pins_are_active_low<R: LedPin, G: LedPin, B: LedPin>(red: R, green: G, blue: B, color: RgbColor)
    requires
        pins_show(red, green, blue, color),
    ensures
        red.is_set_high() == !(color == RgbColor::Red || color == RgbColor::Yellow || color
            == RgbColor::Magenta || color == RgbColor::White),
        green.is_set_high() == !(color == RgbColor::Green || color == RgbColor::Yellow || color
            == RgbColor::Cyan || color == RgbColor::White),
        blue.is_set_high() == !(color == RgbColor::Blue || color == RgbColor::Magenta || color
            == RgbColor::Cyan || color == RgbColor::White),
{
    color_channels(color);
}

/// Each colour lights exactly its own channels: red, green and blue alone;
/// yellow red and green; magenta red and blue; cyan green and blue; white all
/// three; off none.
pub proof fn color_channels(color: RgbColor)
    ensures
        color_mask(color) < 8,
        red_on(color) == (color == RgbColor::Red || color == RgbColor::Yellow || color == RgbColor::Magenta
            || color == RgbColor::White),
        green_on(color) == (color == RgbColor::Green || color == RgbColor::Yellow || color == RgbColor::Cyan
            || color == RgbColor::White),
        blue_on(color) == (color == RgbColor::Blue || color == RgbColor::Magenta || color == RgbColor::Cyan
            || color == RgbColor::White),
{
}

} // verus!
