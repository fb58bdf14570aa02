use cygnus_led::rgb_led_state::{
    battery_color, RgbBleState, RgbColor, RgbConnectionType, RgbLedEvent, RgbLedRole, RgbLedState,
};

#[test]
fn battery_levels_map_to_widget_colors() {
    assert_eq!(battery_color(0), RgbColor::Magenta);
    assert_eq!(battery_color(19), RgbColor::Red);
    assert_eq!(battery_color(20), RgbColor::Yellow);
    assert_eq!(battery_color(79), RgbColor::Yellow);
    assert_eq!(battery_color(80), RgbColor::Green);
    assert_eq!(battery_color(100), RgbColor::Green);
}

#[test]
fn colors_use_red_green_blue_bits() {
    assert_eq!(RgbColor::Off.mask(), 0b000);
    assert_eq!(RgbColor::Red.mask(), 0b001);
    assert_eq!(RgbColor::Green.mask(), 0b010);
    assert_eq!(RgbColor::Blue.mask(), 0b100);
    assert_eq!(RgbColor::White.mask(), 0b111);
}

#[test]
fn central_ble_state_uses_widget_connection_colors() {
    let mut state = RgbLedState::new(RgbLedRole::Central);
    state.handle_event(RgbLedEvent::BleState(RgbBleState::Advertising));
    assert_eq!(state.current_color(), RgbColor::Yellow);
    state.handle_event(RgbLedEvent::BleState(RgbBleState::Connected));
    assert_eq!(state.current_color(), RgbColor::Blue);
    state.handle_event(RgbLedEvent::ConnectionType(RgbConnectionType::Usb));
    state.handle_event(RgbLedEvent::BleState(RgbBleState::Inactive));
    assert_eq!(state.current_color(), RgbColor::Cyan);
}

#[test]
fn peripheral_split_state_uses_connection_colors() {
    let mut state = RgbLedState::new(RgbLedRole::Peripheral);
    state.handle_event(RgbLedEvent::SplitCentral(false));
    assert_eq!(state.current_color(), RgbColor::Red);
    state.handle_event(RgbLedEvent::SplitCentral(true));
    assert_eq!(state.current_color(), RgbColor::Blue);
}

#[test]
fn critical_battery_change_starts_a_red_warning() {
    let mut state = RgbLedState::new(RgbLedRole::Central);
    state.handle_event(RgbLedEvent::Battery(80));
    state.handle_event(RgbLedEvent::Battery(5));
    assert_eq!(state.current_color(), RgbColor::Red);
    assert!(state.has_pending_pattern());
}

#[test]
fn layer_change_blinks_highest_layer_number_on_central_only() {
    let mut central = RgbLedState::new(RgbLedRole::Central);
    let mut peripheral = RgbLedState::new(RgbLedRole::Peripheral);
    central.handle_event(RgbLedEvent::Layer(3));
    peripheral.handle_event(RgbLedEvent::Layer(3));
    assert_eq!(central.current_color(), RgbColor::Cyan);
    assert!(central.has_pending_pattern());
    assert_eq!(peripheral.current_color(), RgbColor::Off);
    assert!(!peripheral.has_pending_pattern());
    for _ in 0..12 {
        central.tick();
    }
    assert_eq!(central.current_color(), RgbColor::Off);
}

#[test]
fn sleep_clears_transient_indicators() {
    let mut state = RgbLedState::new(RgbLedRole::Central);
    state.handle_event(RgbLedEvent::Layer(2));
    state.handle_event(RgbLedEvent::Sleep(true));
    assert_eq!(state.current_color(), RgbColor::Off);
    assert!(!state.has_pending_pattern());
    state.handle_event(RgbLedEvent::Sleep(false));
    assert_eq!(state.current_color(), RgbColor::Off);
}
