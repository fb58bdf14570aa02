use cygnus_led::rgb_led_state::{
    battery_color, RgbBleState, RgbColor, RgbConnectionType, RgbLedEvent, RgbLedRole, RgbLedState,
    TICK_MS,
};

fn colors_over_ticks(state: &mut RgbLedState, ticks: usize) -> Vec<RgbColor> {
    let mut seen = Vec::new();
    for _ in 0..ticks {
        state.tick();
        seen.push(state.current_color());
    }
    seen
}

#[test]
fn every_mask_is_a_distinct_three_bit_value() {
    let colors = [
        RgbColor::Off,
        RgbColor::Red,
        RgbColor::Green,
        RgbColor::Yellow,
        RgbColor::Blue,
        RgbColor::Magenta,
        RgbColor::Cyan,
        RgbColor::White,
    ];
    for (index, color) in colors.iter().enumerate() {
        assert_eq!(color.mask() as usize, index);
    }
    assert_eq!(RgbColor::Yellow.mask(), RgbColor::Red.mask() | RgbColor::Green.mask());
    assert_eq!(RgbColor::Cyan.mask(), RgbColor::Green.mask() | RgbColor::Blue.mask());
    assert_eq!(RgbColor::Magenta.mask(), RgbColor::Red.mask() | RgbColor::Blue.mask());
}

#[test]
fn battery_color_boundaries() {
    assert_eq!(battery_color(1), RgbColor::Red);
    assert_eq!(battery_color(5), RgbColor::Red);
    assert_eq!(battery_color(255), RgbColor::Green);
}

#[test]
fn a_fresh_state_is_dark_and_idle() {
    let state = RgbLedState::new(RgbLedRole::Central);
    assert_eq!(state.current_color(), RgbColor::Off);
    assert!(!state.has_pending_pattern());
    assert_eq!(TICK_MS, 50);
}

#[test]
fn one_layer_blink_is_two_ticks_lit_two_dark() {
    let mut state = RgbLedState::new(RgbLedRole::Central);
    state.handle_event(RgbLedEvent::Battery(50));
    state.handle_event(RgbLedEvent::Layer(1));
    assert_eq!(state.current_color(), RgbColor::Cyan);
    let seen = colors_over_ticks(&mut state, 4);
    assert_eq!(
        seen,
        vec![RgbColor::Cyan, RgbColor::Off, RgbColor::Off, RgbColor::Yellow]
    );
    assert!(!state.has_pending_pattern());
}

#[test]
fn layer_zero_blinks_nothing() {
    let mut state = RgbLedState::new(RgbLedRole::Central);
    state.handle_event(RgbLedEvent::Layer(0));
    assert!(!state.has_pending_pattern());
    assert_eq!(state.current_color(), RgbColor::Off);
}

#[test]
fn layer_blinks_stop_at_queue_capacity() {
    let mut state = RgbLedState::new(RgbLedRole::Central);
    state.handle_event(RgbLedEvent::Layer(40));
    let seen = colors_over_ticks(&mut state, 17 * 4);
    assert_eq!(seen.iter().filter(|c| **c == RgbColor::Cyan).count(), 17 * 2 - 1);
    assert!(!state.has_pending_pattern());
    assert_eq!(state.current_color(), RgbColor::Off);
}

#[test]
fn critical_warning_flashes_three_times_then_shows_battery_color() {
    let mut state = RgbLedState::new(RgbLedRole::Central);
    state.handle_event(RgbLedEvent::Battery(60));
    assert_eq!(state.current_color(), RgbColor::Yellow);
    state.handle_event(RgbLedEvent::Battery(3));
    assert_eq!(state.current_color(), RgbColor::Red);
    let seen = colors_over_ticks(&mut state, 30);
    let lit = seen.iter().filter(|c| **c == RgbColor::Red).count();
    // Four more lit ticks of the first flash, five of each later one, then the
    // resting colour, which is red too at three percent.
    assert_eq!(lit, 3 * 5 - 1 + 1);
    assert_eq!(seen[4], RgbColor::Off);
    assert_eq!(state.current_color(), RgbColor::Red);
    assert!(!state.has_pending_pattern());
}

#[test]
fn no_warning_without_an_earlier_reading_or_from_low_levels() {
    let mut state = RgbLedState::new(RgbLedRole::Central);
    state.handle_event(RgbLedEvent::Battery(4));
    assert!(!state.has_pending_pattern());
    state.handle_event(RgbLedEvent::Battery(3));
    assert!(!state.has_pending_pattern());
    state.handle_event(RgbLedEvent::Battery(0));
    assert!(!state.has_pending_pattern());
    assert_eq!(state.current_color(), RgbColor::Magenta);
}

#[test]
fn charging_shows_green_and_restores_battery_color() {
    let mut state = RgbLedState::new(RgbLedRole::Peripheral);
    state.handle_event(RgbLedEvent::ChargingState(false));
    assert_eq!(state.current_color(), RgbColor::Off);
    state.handle_event(RgbLedEvent::Battery(30));
    state.handle_event(RgbLedEvent::ChargingState(true));
    assert_eq!(state.current_color(), RgbColor::Green);
    state.handle_event(RgbLedEvent::ChargingState(false));
    assert_eq!(state.current_color(), RgbColor::Yellow);
}

#[test]
fn central_link_colors() {
    let mut state = RgbLedState::new(RgbLedRole::Central);
    state.handle_event(RgbLedEvent::ConnectionType(RgbConnectionType::Ble));
    assert_eq!(state.current_color(), RgbColor::Red);
    state.handle_event(RgbLedEvent::ConnectionType(RgbConnectionType::Other));
    assert_eq!(state.current_color(), RgbColor::Red);
    state.handle_event(RgbLedEvent::ConnectionType(RgbConnectionType::Usb));
    assert_eq!(state.current_color(), RgbColor::Cyan);
    state.handle_event(RgbLedEvent::SplitCentral(true));
    assert_eq!(state.current_color(), RgbColor::Cyan);
}

#[test]
fn peripheral_ignores_host_link_and_ble_state() {
    let mut state = RgbLedState::new(RgbLedRole::Peripheral);
    state.handle_event(RgbLedEvent::ConnectionType(RgbConnectionType::Usb));
    state.handle_event(RgbLedEvent::BleState(RgbBleState::Advertising));
    assert_eq!(state.current_color(), RgbColor::Off);
}

#[test]
fn events_while_asleep_stay_dark_until_wake() {
    let mut state = RgbLedState::new(RgbLedRole::Central);
    state.handle_event(RgbLedEvent::Sleep(true));
    state.handle_event(RgbLedEvent::Battery(90));
    state.handle_event(RgbLedEvent::Layer(2));
    state.handle_event(RgbLedEvent::BleState(RgbBleState::Connected));
    assert_eq!(state.current_color(), RgbColor::Off);
    state.tick();
    assert_eq!(state.current_color(), RgbColor::Off);
    state.handle_event(RgbLedEvent::Sleep(false));
    assert_eq!(state.current_color(), RgbColor::Blue);
    assert!(!state.has_pending_pattern());
}

#[test]
fn resting_color_changes_wait_behind_a_running_blink() {
    let mut state = RgbLedState::new(RgbLedRole::Peripheral);
    state.handle_event(RgbLedEvent::Battery(90));
    state.handle_event(RgbLedEvent::Battery(2));
    assert_eq!(state.current_color(), RgbColor::Red);
    state.handle_event(RgbLedEvent::SplitCentral(true));
    assert_eq!(state.current_color(), RgbColor::Red);
    colors_over_ticks(&mut state, 30);
    assert_eq!(state.current_color(), RgbColor::Blue);
}

#[test]
fn queued_patterns_run_in_order_and_drain_on_time() {
    let mut state = RgbLedState::new(RgbLedRole::Central);
    state.handle_event(RgbLedEvent::Battery(90));
    state.handle_event(RgbLedEvent::Layer(2));
    state.handle_event(RgbLedEvent::Battery(3));
    state.handle_event(RgbLedEvent::ChargingState(true));
    assert_eq!(state.current_color(), RgbColor::Cyan);
    let seen = colors_over_ticks(&mut state, 37);
    // Two cyan blinks of four ticks, then the red warning of thirty.
    assert_eq!(seen[3], RgbColor::Cyan);
    assert_eq!(seen[7], RgbColor::Red);
    assert_eq!(seen[11], RgbColor::Red);
    assert_eq!(seen[12], RgbColor::Off);
    assert!(state.has_pending_pattern());
    state.tick();
    assert!(!state.has_pending_pattern());
    assert_eq!(state.current_color(), RgbColor::Green);
    state.tick();
    assert_eq!(state.current_color(), RgbColor::Green);
}
