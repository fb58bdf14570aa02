use cygnus_led::rgb_led::{
    connection_type_from_code, map_controller_event, ControllerSignal, LedPin, RgbLedController,
};
use cygnus_led::rgb_led_state::{RgbBleState, RgbConnectionType, RgbLedEvent, RgbLedRole};

use std::cell::Cell;
use std::rc::Rc;

/// A pin that records its level and how often it was written, shared with the test.
#[derive(Clone)]
struct FakePin {
    high: Rc<Cell<bool>>,
    writes: Rc<Cell<u64>>,
}

impl FakePin {
    fn new() -> Self {
        FakePin { high: Rc::new(Cell::new(true)), writes: Rc::new(Cell::new(0)) }
    }
}

impl LedPin for FakePin {
    fn is_set_high(&self) -> bool {
        self.high.get()
    }

    fn write_count(&self) -> u64 {
        self.writes.get()
    }

    fn set_high(&mut self) {
        self.high.set(true);
        self.writes.set(self.writes.get().wrapping_add(1));
    }

    fn set_low(&mut self) {
        self.high.set(false);
        self.writes.set(self.writes.get().wrapping_add(1));
    }
}

struct Rig {
    controller: RgbLedController<FakePin, FakePin, FakePin>,
    pins: (FakePin, FakePin, FakePin),
}

fn rig(role: RgbLedRole) -> Rig {
    let pins = (FakePin::new(), FakePin::new(), FakePin::new());
    let controller = RgbLedController::new(pins.0.clone(), pins.1.clone(), pins.2.clone(), role);
    Rig { controller, pins }
}

fn levels(rig: &Rig) -> (bool, bool, bool) {
    (rig.pins.0.high.get(), rig.pins.1.high.get(), rig.pins.2.high.get())
}

#[test]
fn link_codes_map_to_connection_types() {
    assert_eq!(connection_type_from_code(0), RgbConnectionType::Usb);
    assert_eq!(connection_type_from_code(1), RgbConnectionType::Ble);
    assert_eq!(connection_type_from_code(2), RgbConnectionType::Other);
    assert_eq!(connection_type_from_code(255), RgbConnectionType::Other);
}

#[test]
fn controller_events_map_to_indicator_events() {
    assert_eq!(map_controller_event(ControllerSignal::Battery(42)), Some(RgbLedEvent::Battery(42)));
    assert_eq!(
        map_controller_event(ControllerSignal::ChargingState(true)),
        Some(RgbLedEvent::ChargingState(true))
    );
    assert_eq!(map_controller_event(ControllerSignal::Layer(4)), Some(RgbLedEvent::Layer(4)));
    assert_eq!(
        map_controller_event(ControllerSignal::ConnectionType(1)),
        Some(RgbLedEvent::ConnectionType(RgbConnectionType::Ble))
    );
    assert_eq!(
        map_controller_event(ControllerSignal::SplitCentral(false)),
        Some(RgbLedEvent::SplitCentral(false))
    );
    assert_eq!(map_controller_event(ControllerSignal::Sleep(true)), Some(RgbLedEvent::Sleep(true)));
    assert_eq!(
        map_controller_event(ControllerSignal::BleState(3, RgbBleState::Connected)),
        Some(RgbLedEvent::BleState(RgbBleState::Connected))
    );
    assert_eq!(map_controller_event(ControllerSignal::Other), None);
}

#[test]
fn pins_are_active_low() {
    let mut rig = rig(RgbLedRole::Peripheral);
    rig.controller.process_event(ControllerSignal::SplitCentral(false));
    assert_eq!(levels(&rig), (false, true, true));
    rig.controller.process_event(ControllerSignal::SplitCentral(true));
    assert_eq!(levels(&rig), (true, true, false));
    rig.controller.process_event(ControllerSignal::Battery(90));
    assert_eq!(levels(&rig), (true, false, true));
    rig.controller.process_event(ControllerSignal::Sleep(true));
    assert_eq!(levels(&rig), (true, true, true));
}

#[test]
fn ignored_events_leave_the_pins_alone() {
    let mut rig = rig(RgbLedRole::Central);
    rig.controller.process_event(ControllerSignal::Other);
    let writes = (rig.pins.0.writes.get(), rig.pins.1.writes.get(), rig.pins.2.writes.get());
    assert_eq!(writes, (0, 0, 0));
    rig.controller.process_event(ControllerSignal::Layer(0));
    let writes = (rig.pins.0.writes.get(), rig.pins.1.writes.get(), rig.pins.2.writes.get());
    assert_eq!(writes, (1, 1, 1));
}

#[test]
fn update_ticks_and_drives_the_pins() {
    let mut rig = rig(RgbLedRole::Central);
    rig.controller.process_event(ControllerSignal::ConnectionType(0));
    assert_eq!(levels(&rig), (true, false, false));
    rig.controller.process_event(ControllerSignal::BleState(0, RgbBleState::Advertising));
    assert_eq!(levels(&rig), (false, false, true));
    rig.controller.process_event(ControllerSignal::Layer(1));
    assert_eq!(levels(&rig), (true, false, false));
    let before = (rig.pins.0.write_count(), rig.pins.1.write_count(), rig.pins.2.write_count());
    rig.controller.update();
    let after = (rig.pins.0.write_count(), rig.pins.1.write_count(), rig.pins.2.write_count());
    assert_eq!(after, (before.0 + 1, before.1 + 1, before.2 + 1));
    rig.controller.update();
    assert_eq!(levels(&rig), (true, true, true));
    rig.controller.update();
    rig.controller.update();
    assert_eq!(levels(&rig), (false, false, true));
}
