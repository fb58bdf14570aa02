//! Properties of the indicator that hold across events and ticks.

use vstd::prelude::*;
use crate::rgb_led_state::{
    critical_battery_blink, is_critical_drop, queue_after_pop, queue_after_push, spec_activate, spec_battery_color, status_blink,
    ActivePattern, BlinkPattern, LedStateView, RgbBleState, RgbColor, RgbConnectionType, RgbLedEvent, RgbLedRole,
    PATTERN_QUEUE_CAPACITY,
};

verus! {

proof fn lemma_enqueue_keeps_consistency(s: LedStateView, pattern: BlinkPattern)
    requires
        s.consistent(),
    ensures
        s.enqueue_pattern(pattern).consistent(),
        s.enqueue_pattern(pattern).sleeping == s.sleeping,
{
}

proof fn lemma_enqueue_repeated_keeps_consistency(s: LedStateView, pattern: BlinkPattern, count: nat)
    requires
        s.consistent(),
    ensures
        s.enqueue_repeated(pattern, count).consistent(),
        s.enqueue_repeated(pattern, count).sleeping == s.sleeping,
    decreases count,
{
    if count > 0 {
        lemma_enqueue_repeated_keeps_consistency(s, pattern, (count - 1) as nat);
        lemma_enqueue_keeps_consistency(s.enqueue_repeated(pattern, (count - 1) as nat), pattern);
    }
}

/// Every event keeps the state consistent: in particular the LED always shows
/// dark while asleep, the phase of the running blink while one runs, and the
/// resting colour otherwise, and at most `PATTERN_QUEUE_CAPACITY` patterns wait.
/// Only a sleep event changes whether the keyboard sleeps.
pub proof fn event_keeps_consistency(s: LedStateView, event: RgbLedEvent)
    requires
        s.consistent(),
    ensures
        s.after_event(event).consistent(),
        event matches RgbLedEvent::Sleep(sleeping) ==> s.after_event(event).sleeping == sleeping,
        !(event is Sleep) ==> s.after_event(event).sleeping == s.sleeping,
{
    match event {
        RgbLedEvent::Battery(level) => {
            let updated = (LedStateView { last_battery: Some(level), ..s }).set_persistent_color(
                spec_battery_color(level),
            );
            lemma_enqueue_keeps_consistency(updated, critical_battery_blink());
        },
        RgbLedEvent::Layer(layer) => {
            lemma_enqueue_repeated_keeps_consistency(s, status_blink(), layer as nat);
        },
        _ => {},
    }
}

/// Every tick keeps the state consistent.
pub proof fn tick_keeps_consistency(s: LedStateView)
    requires
        s.consistent(),
    ensures
        s.after_tick().consistent(),
{
}

/// A fresh state is consistent.
pub proof fn initial_is_consistent(role: RgbLedRole)
    ensures
        LedStateView::initial(role).consistent(),
{
}


/// `count` copies of one pattern.
pub open spec fn copies(pattern: BlinkPattern, count: nat) -> Seq<BlinkPattern> {
    Seq::new(count, |i: int| pattern)
}

pub open spec fn min_nat(a: nat, b: nat) -> nat {
    if a <= b { a } else { b }
}

proof fn lemma_enqueue_repeated_when_idle(s: LedStateView, pattern: BlinkPattern, count: nat)
    requires
        s.consistent(),
        !s.sleeping,
        s.active is None,
        count >= 1,
    ensures
        s.enqueue_repeated(pattern, count) == (LedStateView {
            active: Some(spec_activate(pattern)),
            current_color: pattern.color,
            queue: copies(pattern, min_nat((count - 1) as nat, PATTERN_QUEUE_CAPACITY as nat)),
            ..s
        }),
    decreases count,
{
    if count == 1 {
        assert(s.queue.push(pattern).drop_first() =~= copies(pattern, 0));
    } else {
        lemma_enqueue_repeated_when_idle(s, pattern, (count - 1) as nat);
        let n = min_nat((count - 2) as nat, PATTERN_QUEUE_CAPACITY as nat);
        if n < PATTERN_QUEUE_CAPACITY {
            assert(copies(pattern, n).push(pattern) =~= copies(pattern, n + 1));
        }
    }
}

proof fn lemma_enqueue_repeated_when_busy(s: LedStateView, pattern: BlinkPattern, count: nat)
    requires
        s.consistent(),
        s.active is Some || s.sleeping,
    ensures
        s.enqueue_repeated(pattern, count) == (LedStateView {
            queue: s.queue + copies(
                pattern,
                min_nat(count, (PATTERN_QUEUE_CAPACITY - s.queue.len()) as nat),
            ),
            ..s
        }),
    decreases count,
{
    if count == 0 {
        assert(s.queue + copies(pattern, 0) =~= s.queue);
    } else {
        lemma_enqueue_repeated_when_busy(s, pattern, (count - 1) as nat);
        let n = min_nat((count - 1) as nat, (PATTERN_QUEUE_CAPACITY - s.queue.len()) as nat);
        if s.queue.len() + n < PATTERN_QUEUE_CAPACITY {
            assert((s.queue + copies(pattern, n)).push(pattern) =~= s.queue + copies(pattern, n + 1));
        }
    }
}

/// On the central, changing to layer `n` blinks cyan once per layer number:
/// an idle, awake LED starts the first blink at once and queues the others,
/// as many as the queue holds; nothing else changes.
pub proof fn central_layer_blinks_when_idle(s: LedStateView, layer: u8)
    requires
        s.consistent(),
        s.role == RgbLedRole::Central,
        !s.sleeping,
        !s.has_pending_pattern(),
        layer >= 1,
    ensures
        s.after_event(RgbLedEvent::Layer(layer)) == (LedStateView {
            active: Some(spec_activate(status_blink())),
            current_color: RgbColor::Cyan,
            queue: copies(status_blink(), min_nat((layer - 1) as nat, PATTERN_QUEUE_CAPACITY as nat)),
            ..s
        }),
{
    lemma_enqueue_repeated_when_idle(s, status_blink(), layer as nat);
}

/// On the central, a layer change while a blink runs or while asleep queues one
/// cyan blink per layer number behind the waiting ones, up to the queue's capacity.
pub proof fn central_layer_blinks_queue_when_busy(s: LedStateView, layer: u8)
    requires
        s.consistent(),
        s.role == RgbLedRole::Central,
        s.active is Some || s.sleeping,
    ensures
        s.after_event(RgbLedEvent::Layer(layer)) == (LedStateView {
            queue: s.queue + copies(
                status_blink(),
                min_nat(layer as nat, (PATTERN_QUEUE_CAPACITY - s.queue.len()) as nat),
            ),
            ..s
        }),
{
    lemma_enqueue_repeated_when_busy(s, status_blink(), layer as nat);
}

/// The peripheral ignores layer changes and BLE state; the central ignores the split link.
pub proof fn each_half_ignores_the_others_events(s: LedStateView, layer: u8, ble: RgbBleState, connected: bool)
    ensures
        s.role == RgbLedRole::Peripheral ==> s.after_event(RgbLedEvent::Layer(layer)) == s,
        s.role == RgbLedRole::Peripheral ==> s.after_event(RgbLedEvent::BleState(ble)) == s,
        s.role == RgbLedRole::Central ==> s.after_event(RgbLedEvent::SplitCentral(connected)) == s,
{
}

/// The central's resting colour follows the host link: yellow while advertising,
/// blue while connected, and with BLE unused cyan on USB and red otherwise.
/// The peripheral records the link type and keeps its colour.
pub proof fn central_connection_colors(s: LedStateView, ble: RgbBleState, link: RgbConnectionType)
    ensures
        s.role == RgbLedRole::Central ==> s.after_event(RgbLedEvent::BleState(ble)).persistent_color == match ble {
            RgbBleState::Advertising => RgbColor::Yellow,
            RgbBleState::Connected => RgbColor::Blue,
            RgbBleState::Inactive => if s.connection_type == RgbConnectionType::Usb {
                RgbColor::Cyan
            } else {
                RgbColor::Red
            },
        },
        s.role == RgbLedRole::Central ==> s.after_event(RgbLedEvent::ConnectionType(link)).persistent_color == match s.ble_state {
            RgbBleState::Advertising => RgbColor::Yellow,
            RgbBleState::Connected => RgbColor::Blue,
            RgbBleState::Inactive => if link == RgbConnectionType::Usb {
                RgbColor::Cyan
            } else {
                RgbColor::Red
            },
        },
        s.role == RgbLedRole::Peripheral ==> s.after_event(RgbLedEvent::ConnectionType(link)) == (LedStateView { connection_type: link, ..s }),
{
}

/// The peripheral's resting colour shows the link to the central: blue when connected, red when not.
pub proof fn peripheral_split_colors(s: LedStateView, connected: bool)
    requires
        s.role == RgbLedRole::Peripheral,
    ensures
        s.after_event(RgbLedEvent::SplitCentral(connected)).persistent_color == if connected {
            RgbColor::Blue
        } else {
            RgbColor::Red
        },
{
}

/// Charging shows green; when charging stops, the colour of the last battery reading returns.
pub proof fn charging_colors(s: LedStateView)
    ensures
        s.after_event(RgbLedEvent::ChargingState(true)).persistent_color == RgbColor::Green,
        s.after_event(RgbLedEvent::ChargingState(false)).persistent_color == match s.last_battery {
            Some(level) => spec_battery_color(level),
            None => s.persistent_color,
        },
{
}

/// A battery reading sets the resting colour from the level and is remembered.
/// On an idle, awake LED the new colour shows at once, unless the level fell
/// from above 5 percent to between 1 and 5: then a red warning starts at once.
pub proof fn battery_reading(s: LedStateView, level: u8)
    requires
        s.consistent(),
    ensures
        s.after_event(RgbLedEvent::Battery(level)).persistent_color == spec_battery_color(level),
        s.after_event(RgbLedEvent::Battery(level)).last_battery == Some(level),
        !s.sleeping && !s.has_pending_pattern() && !(s.last_battery matches Some(previous) && is_critical_drop(previous, level))
            ==> s.after_event(RgbLedEvent::Battery(level)).current_color == spec_battery_color(level)
                && !s.after_event(RgbLedEvent::Battery(level)).has_pending_pattern(),
        !s.sleeping && !s.has_pending_pattern() && (s.last_battery matches Some(previous) && is_critical_drop(previous, level))
            ==> s.after_event(RgbLedEvent::Battery(level)).current_color == RgbColor::Red
                && s.after_event(RgbLedEvent::Battery(level)).active == Some(spec_activate(critical_battery_blink())),
{
}

/// The low-battery warning is three red flashes of five ticks lit and five dark;
/// a layer blink is one cyan flash of two ticks lit and two dark.
pub proof fn blink_shapes()
    ensures
        critical_battery_blink() == (BlinkPattern { color: RgbColor::Red, on_ticks: 5, off_ticks: 5, repeats: 3 }),
        status_blink() == (BlinkPattern { color: RgbColor::Cyan, on_ticks: 2, off_ticks: 2, repeats: 1 }),
{
}

/// Going to sleep darkens the LED and drops every pending blink; waking shows
/// the resting colour, still with nothing pending. The resting colour survives both.
pub proof fn sleep_clears_transient_indicators(s: LedStateView)
    ensures
        s.after_event(RgbLedEvent::Sleep(true)).current_color == RgbColor::Off,
        !s.after_event(RgbLedEvent::Sleep(true)).has_pending_pattern(),
        s.after_event(RgbLedEvent::Sleep(true)).persistent_color == s.persistent_color,
        s.after_event(RgbLedEvent::Sleep(false)).current_color == s.persistent_color,
        !s.after_event(RgbLedEvent::Sleep(false)).has_pending_pattern(),
        s.after_event(RgbLedEvent::Sleep(false)).persistent_color == s.persistent_color,
{
}

/// While asleep the LED stays dark and nothing runs, through every tick and
/// every event but the one that wakes it.
pub proof fn asleep_stays_dark(s: LedStateView, event: RgbLedEvent)
    requires
        s.consistent(),
        s.sleeping,
        event != RgbLedEvent::Sleep(false),
    ensures
        s.after_event(event).sleeping,
        s.after_event(event).current_color == RgbColor::Off,
        s.after_event(event).active is None,
        s.after_tick().sleeping,
        s.after_tick().current_color == RgbColor::Off,
        s.after_tick().active is None,
{
    event_keeps_consistency(s, event);
    tick_keeps_consistency(s);
}

/// The state after `count` ticks.
pub open spec fn after_ticks(s: LedStateView, count: nat) -> LedStateView
    decreases count,
{
    if count == 0 {
        s
    } else {
        after_ticks(s, (count - 1) as nat).after_tick()
    }
}

/// What a running pattern leaves behind when its last phase ends: the next
/// queued pattern, or the resting colour.
pub open spec fn finish_pattern(s: LedStateView) -> LedStateView {
    (LedStateView { active: None, current_color: s.persistent_color, ..s }).start_next_pattern()
}

proof fn lemma_ticks_compose(s: LedStateView, a: nat, b: nat)
    ensures
        after_ticks(s, a + b) == after_ticks(after_ticks(s, a), b),
    decreases b,
{
    if b > 0 {
        lemma_ticks_compose(s, a, (b - 1) as nat);
        assert((a + b - 1) as nat == a + (b - 1) as nat);
    }
}

/// Ticks before the last one of a phase only count down.
proof fn lemma_countdown(s: LedStateView, a: ActivePattern)
    requires
        !s.sleeping,
        s.active == Some(a),
        a.ticks_left >= 1,
    ensures
        after_ticks(s, (a.ticks_left - 1) as nat) == (LedStateView {
            active: Some(ActivePattern { ticks_left: 1, ..a }),
            ..s
        }),
    decreases a.ticks_left,
{
    if a.ticks_left > 1 {
        let next_a = ActivePattern { ticks_left: (a.ticks_left - 1) as u8, ..a };
        let next = LedStateView { active: Some(next_a), ..s };
        assert(after_ticks(s, 0) == s);
        assert(after_ticks(s, 1) == next);
        lemma_countdown(next, next_a);
        lemma_ticks_compose(s, 1, (a.ticks_left - 2) as nat);
        assert(1 + (a.ticks_left - 2) as nat == (a.ticks_left - 1) as nat);
    } else {
        assert(ActivePattern { ticks_left: 1, ..a } == a);
        assert(LedStateView { active: Some(a), ..s } == s);
    }
}

/// A lit phase start of a pattern with `a.repeats_left` repeats to go.
pub open spec fn lit_start(s: LedStateView, a: ActivePattern) -> bool {
    &&& !s.sleeping
    &&& s.active == Some(a)
    &&& a.phase_on
    &&& a.ticks_left == a.on_ticks
    &&& a.on_ticks >= 1
    &&& a.off_ticks >= 1
    &&& s.current_color == a.color
}

/// One lit phase and one dark phase take `on_ticks + off_ticks` ticks.
proof fn lemma_one_repeat(s: LedStateView, a: ActivePattern)
    requires
        lit_start(s, a),
        a.repeats_left >= 1,
    ensures
        a.repeats_left > 1 ==> after_ticks(s, (a.on_ticks + a.off_ticks) as nat) == (LedStateView {
            active: Some(ActivePattern { repeats_left: (a.repeats_left - 1) as u8, ..a }),
            ..s
        }),
        a.repeats_left == 1 ==> after_ticks(s, (a.on_ticks + a.off_ticks) as nat) == finish_pattern(s),
{
    let on = a.on_ticks as nat;
    let off = a.off_ticks as nat;
    lemma_countdown(s, a);
    let s1 = after_ticks(s, (on - 1) as nat);
    let a2 = ActivePattern { phase_on: false, ticks_left: a.off_ticks, ..a };
    let s2 = LedStateView { active: Some(a2), current_color: RgbColor::Off, ..s };
    assert(after_ticks(s1, 0) == s1);
    assert(after_ticks(s1, 1) == s2);
    lemma_countdown(s2, a2);
    let s3 = after_ticks(s2, (off - 1) as nat);
    lemma_ticks_compose(s, (on - 1) as nat, 1);
    lemma_ticks_compose(s, on, (off - 1) as nat);
    lemma_ticks_compose(s, (on + off - 1) as nat, 1);
    assert(on + (off - 1) as nat == (on + off - 1) as nat);
    assert((on + off - 1) as nat + 1 == on + off);
    assert(after_ticks(s, on + off) == after_ticks(s3, 1));
    if a.repeats_left > 1 {
        let a4 = ActivePattern { repeats_left: (a.repeats_left - 1) as u8, ..a };
        assert(ActivePattern { repeats_left: (a.repeats_left - 1) as u8, phase_on: true, ticks_left: a.on_ticks, ..a2 } == a4);
    }
}

/// A pattern with `r` repeats runs for `r * (on_ticks + off_ticks)` ticks, then
/// the next queued pattern or the resting colour takes over.
proof fn lemma_whole_pattern(s: LedStateView, a: ActivePattern)
    requires
        lit_start(s, a),
        a.repeats_left >= 1,
    ensures
        after_ticks(s, a.repeats_left as nat * ((a.on_ticks + a.off_ticks) as nat)) == finish_pattern(s),
    decreases a.repeats_left,
{
    lemma_one_repeat(s, a);
    let period = (a.on_ticks + a.off_ticks) as nat;
    if a.repeats_left > 1 {
        let a2 = ActivePattern { repeats_left: (a.repeats_left - 1) as u8, ..a };
        let s2 = LedStateView { active: Some(a2), ..s };
        lemma_whole_pattern(s2, a2);
        let rest = (a.repeats_left - 1) as nat;
        lemma_ticks_compose(s, period, rest * period);
        assert(a.repeats_left as nat * period == period + rest * period) by (nonlinear_arith)
            requires rest == a.repeats_left - 1;
        assert(finish_pattern(s2) == finish_pattern(s));
    } else {
        assert(a.repeats_left as nat * period == period) by (nonlinear_arith)
            requires a.repeats_left == 1;
    }
}

/// A run of `count + 1` copies of one pattern, the first of them just started.
proof fn lemma_drain_copies(s: LedStateView, pattern: BlinkPattern, count: nat)
    requires
        !s.sleeping,
        s.active == Some(spec_activate(pattern)),
        s.current_color == pattern.color,
        s.queue == copies(pattern, count),
        pattern.on_ticks >= 1,
        pattern.off_ticks >= 1,
        pattern.repeats >= 1,
    ensures
        after_ticks(s, (count + 1) * (pattern.repeats as nat * ((pattern.on_ticks + pattern.off_ticks) as nat)))
            == (LedStateView {
                active: None,
                current_color: s.persistent_color,
                queue: Seq::empty(),
                ..s
            }),
    decreases count,
{
    let duration = pattern.repeats as nat * ((pattern.on_ticks + pattern.off_ticks) as nat);
    lemma_whole_pattern(s, spec_activate(pattern));
    let next = finish_pattern(s);
    if count == 0 {
        assert(copies(pattern, 0) =~= Seq::<BlinkPattern>::empty());
        assert(next == (LedStateView { active: None, current_color: s.persistent_color, queue: Seq::empty(), ..s }));
        assert((count + 1) * duration == duration) by (nonlinear_arith)
            requires count == 0;
    } else {
        assert(s.queue[0] == pattern);
        assert(s.queue.drop_first() =~= copies(pattern, (count - 1) as nat));
        lemma_drain_copies(next, pattern, (count - 1) as nat);
        lemma_ticks_compose(s, duration, count * duration);
        assert((count + 1) * duration == duration + count * duration) by (nonlinear_arith);
    }
}

/// On the central, the cyan blinks of a layer change on an idle, awake LED
/// last four ticks each (one per layer number, at most one more than the queue
/// holds); when the last ends the state is again exactly what it was before.
pub proof fn central_layer_blinks_end_where_they_started(s: LedStateView, layer: u8)
    requires
        s.consistent(),
        s.role == RgbLedRole::Central,
        !s.sleeping,
        !s.has_pending_pattern(),
    ensures
        after_ticks(
            s.after_event(RgbLedEvent::Layer(layer)),
            4 * min_nat(layer as nat, PATTERN_QUEUE_CAPACITY as nat + 1),
        ) == s,
{
    if layer == 0 {
        assert(s.after_event(RgbLedEvent::Layer(layer)) == s);
    } else {
        central_layer_blinks_when_idle(s, layer);
        blink_shapes();
        let t = s.after_event(RgbLedEvent::Layer(layer));
        let n = min_nat((layer - 1) as nat, PATTERN_QUEUE_CAPACITY as nat);
        lemma_drain_copies(t, status_blink(), n);
        assert(s.queue =~= Seq::<BlinkPattern>::empty());
        let duration = status_blink().repeats as nat * ((status_blink().on_ticks + status_blink().off_ticks) as nat);
        assert(duration == 4);
        assert(min_nat(layer as nat, PATTERN_QUEUE_CAPACITY as nat + 1) == n + 1);
        assert((n + 1) * duration == 4 * (n + 1)) by (nonlinear_arith)
            requires duration == 4;
    }
}


/// On an idle, awake LED the low-battery warning lasts thirty ticks; then the
/// LED shows the battery level's colour with nothing pending.
pub proof fn critical_battery_warning_ends(s: LedStateView, level: u8)
    requires
        s.consistent(),
        !s.sleeping,
        !s.has_pending_pattern(),
        s.last_battery matches Some(previous) && is_critical_drop(previous, level),
    ensures
        after_ticks(s.after_event(RgbLedEvent::Battery(level)), 30).current_color == spec_battery_color(level),
        !after_ticks(s.after_event(RgbLedEvent::Battery(level)), 30).has_pending_pattern(),
{
    blink_shapes();
    battery_reading(s, level);
    let t = s.after_event(RgbLedEvent::Battery(level));
    assert(t.queue =~= copies(critical_battery_blink(), 0));
    lemma_drain_copies(t, critical_battery_blink(), 0);
    let duration = critical_battery_blink().repeats as nat * ((critical_battery_blink().on_ticks
        + critical_battery_blink().off_ticks) as nat);
    assert(duration == 30);
    assert((0 + 1) * duration == 30) by (nonlinear_arith)
        requires duration == 30;
}


/// A queue after offering it several patterns, first to last.
pub open spec fn queue_after_pushes(queue: Seq<BlinkPattern>, patterns: Seq<BlinkPattern>) -> Seq<BlinkPattern>
    decreases patterns.len(),
{
    if patterns.len() == 0 {
        queue
    } else {
        queue_after_push(queue_after_pushes(queue, patterns.drop_last()), patterns.last())
    }
}

/// What `count` pops take from a queue, oldest first, and the queue they leave.
pub open spec fn queue_after_pops(queue: Seq<BlinkPattern>, count: nat) -> (Seq<BlinkPattern>, Seq<BlinkPattern>)
    decreases count,
{
    if count == 0 {
        (Seq::empty(), queue)
    } else {
        let (first, rest) = queue_after_pop(queue);
        let (taken, left) = queue_after_pops(rest, (count - 1) as nat);
        match first {
            Some(pattern) => (seq![pattern] + taken, left),
            None => (taken, left),
        }
    }
}

/// The pattern queue is first in, first out: offered patterns are appended in
/// order until it holds `PATTERN_QUEUE_CAPACITY`, the rest are dropped, and
/// pops hand them back in the same order, none lost, repeated or reordered.
pub proof fn queue_first_in_first_out(queue: Seq<BlinkPattern>, patterns: Seq<BlinkPattern>, count: nat)
    requires
        queue.len() <= PATTERN_QUEUE_CAPACITY,
    ensures
        queue_after_pushes(queue, patterns) == (queue + patterns).take(
            min_nat((queue.len() + patterns.len()) as nat, PATTERN_QUEUE_CAPACITY as nat) as int,
        ),
        queue_after_pops(queue, count) == (
            queue.take(min_nat(count, queue.len()) as int),
            queue.skip(min_nat(count, queue.len()) as int),
        ),
    decreases patterns.len() + count,
{
    if patterns.len() > 0 {
        let shorter = patterns.drop_last();
        queue_first_in_first_out(queue, shorter, 0);
        let before = (queue + shorter).take(
            min_nat((queue.len() + shorter.len()) as nat, PATTERN_QUEUE_CAPACITY as nat) as int,
        );
        if before.len() < PATTERN_QUEUE_CAPACITY {
            assert(before.push(patterns.last()) =~= (queue + patterns).take(
                min_nat((queue.len() + patterns.len()) as nat, PATTERN_QUEUE_CAPACITY as nat) as int,
            ));
        } else {
            assert(before =~= (queue + patterns).take(
                min_nat((queue.len() + patterns.len()) as nat, PATTERN_QUEUE_CAPACITY as nat) as int,
            ));
        }
    } else {
        assert((queue + patterns).take(queue.len() as int) =~= queue);
    }
    if count > 0 {
        if queue.len() == 0 {
            queue_first_in_first_out(queue, Seq::empty(), (count - 1) as nat);
            assert(queue.take(0) =~= Seq::<BlinkPattern>::empty());
        } else {
            let rest = queue.drop_first();
            queue_first_in_first_out(rest, Seq::empty(), (count - 1) as nat);
            let k = min_nat((count - 1) as nat, rest.len());
            assert(seq![queue[0]] + rest.take(k as int) =~= queue.take(k + 1 as int));
            assert(rest.skip(k as int) =~= queue.skip(k + 1 as int));
        }
    } else {
        assert(queue.take(0) =~= Seq::<BlinkPattern>::empty());
        assert(queue.skip(0) =~= queue);
    }
}


/// `later` differs from `s` at most in the running pattern and the colour shown.
pub open spec fn same_but_pattern(s: LedStateView, later: LedStateView) -> bool {
    later == (LedStateView { active: later.active, current_color: later.current_color, ..s })
}

proof fn lemma_countdown_by(s: LedStateView, a: ActivePattern, t: nat)
    requires
        !s.sleeping,
        s.active == Some(a),
        t < a.ticks_left,
    ensures
        after_ticks(s, t) == (LedStateView {
            active: Some(ActivePattern { ticks_left: (a.ticks_left - t) as u8, ..a }),
            ..s
        }),
    decreases t,
{
    if t == 0 {
        assert(ActivePattern { ticks_left: a.ticks_left, ..a } == a);
        assert(LedStateView { active: Some(a), ..s } == s);
    } else {
        lemma_countdown_by(s, a, (t - 1) as nat);
    }
}

/// Within one repeat: `offset` ticks after a lit start the LED shows the
/// pattern's colour while `offset < on_ticks`, and is dark after that.
proof fn lemma_within_repeat(s: LedStateView, a: ActivePattern, offset: nat)
    requires
        lit_start(s, a),
        offset < a.on_ticks + a.off_ticks,
    ensures
        after_ticks(s, offset).current_color == if offset < a.on_ticks { a.color } else { RgbColor::Off },
        after_ticks(s, offset).active is Some,
        same_but_pattern(s, after_ticks(s, offset)),
{
    let on = a.on_ticks as nat;
    if offset < on {
        lemma_countdown_by(s, a, offset);
    } else {
        lemma_countdown(s, a);
        let s1 = after_ticks(s, (on - 1) as nat);
        let a2 = ActivePattern { phase_on: false, ticks_left: a.off_ticks, ..a };
        let s2 = LedStateView { active: Some(a2), current_color: RgbColor::Off, ..s };
        assert(after_ticks(s1, 0) == s1);
        assert(after_ticks(s1, 1) == s2);
        lemma_ticks_compose(s, (on - 1) as nat, 1);
        lemma_countdown_by(s2, a2, (offset - on) as nat);
        lemma_ticks_compose(s, on, (offset - on) as nat);
    }
}

/// Each repeat of a blink shows its colour for exactly `on_ticks` ticks and
/// then stays dark for `off_ticks` ticks: `offset` ticks into repeat number
/// `repeat` (counting from 0) the colour is the pattern's while `offset` is
/// below `on_ticks` and off after that, and the blink is still pending.
pub proof fn blink_phases(s: LedStateView, a: ActivePattern, repeat: nat, offset: nat)
    requires
        lit_start(s, a),
        repeat < a.repeats_left,
        offset < a.on_ticks + a.off_ticks,
    ensures
        after_ticks(s, repeat * ((a.on_ticks + a.off_ticks) as nat) + offset).current_color == if offset
            < a.on_ticks {
            a.color
        } else {
            RgbColor::Off
        },
        after_ticks(s, repeat * ((a.on_ticks + a.off_ticks) as nat) + offset).has_pending_pattern(),
    decreases repeat,
{
    let period = (a.on_ticks + a.off_ticks) as nat;
    if repeat == 0 {
        lemma_within_repeat(s, a, offset);
        assert(repeat * period + offset == offset) by (nonlinear_arith)
            requires repeat == 0;
    } else {
        lemma_one_repeat(s, a);
        let a2 = ActivePattern { repeats_left: (a.repeats_left - 1) as u8, ..a };
        let s2 = LedStateView { active: Some(a2), ..s };
        blink_phases(s2, a2, (repeat - 1) as nat, offset);
        let rest = (repeat - 1) as nat;
        assert(repeat * period + offset == period + (rest * period + offset)) by (nonlinear_arith)
            requires rest == repeat - 1;
        lemma_ticks_compose(s, period, rest * period + offset);
    }
}

/// A pattern that can run to its end: both phases and its repeats at least one tick long.
pub open spec fn well_shaped(pattern: BlinkPattern) -> bool {
    pattern.on_ticks >= 1 && pattern.off_ticks >= 1 && pattern.repeats >= 1
}

/// A running pattern that can run to its end.
pub open spec fn running_well(a: ActivePattern) -> bool {
    a.on_ticks >= 1 && a.off_ticks >= 1 && a.repeats_left >= 1 && a.ticks_left >= 1
}

/// Ticks a whole pattern lasts.
pub open spec fn pattern_ticks(pattern: BlinkPattern) -> nat {
    pattern.repeats as nat * ((pattern.on_ticks + pattern.off_ticks) as nat)
}

/// Ticks all queued patterns last together.
pub open spec fn queue_ticks(queue: Seq<BlinkPattern>) -> nat
    decreases queue.len(),
{
    if queue.len() == 0 {
        0
    } else {
        pattern_ticks(queue[0]) + queue_ticks(queue.drop_first())
    }
}

/// Ticks left until a running pattern ends: the rest of this phase, the dark
/// phase if it is lit, and the repeats still to come.
pub open spec fn remaining_ticks(a: ActivePattern) -> nat {
    a.ticks_left as nat + (if a.phase_on { a.off_ticks as nat } else { 0 }) + (a.repeats_left - 1) as nat * ((
    a.on_ticks + a.off_ticks) as nat)
}

proof fn lemma_step(s: LedStateView, a: ActivePattern)
    requires
        !s.sleeping,
        s.active == Some(a),
        running_well(a),
    ensures
        remaining_ticks(a) == 1 ==> s.after_tick() == finish_pattern(s),
        remaining_ticks(a) > 1 ==> same_but_pattern(s, s.after_tick()) && (s.after_tick().active matches Some(
            a2,
        ) && running_well(a2) && remaining_ticks(a2) == remaining_ticks(a) - 1),
{
    let period = (a.on_ticks + a.off_ticks) as nat;
    let r = (a.repeats_left - 1) as nat;
    if a.ticks_left == 1 && !a.phase_on && a.repeats_left > 1 {
        let r2 = (a.repeats_left - 2) as nat;
        assert(r * period == period + r2 * period) by (nonlinear_arith)
            requires r == r2 + 1;
    }
    if a.repeats_left == 1 {
        assert(r * period == 0) by (nonlinear_arith)
            requires r == 0;
    }
    assert(r * period >= 0) by (nonlinear_arith);
}

proof fn lemma_run(s: LedStateView, a: ActivePattern)
    requires
        !s.sleeping,
        s.active == Some(a),
        running_well(a),
    ensures
        after_ticks(s, remaining_ticks(a)) == finish_pattern(s),
        forall|k: nat| k < remaining_ticks(a) ==> (#[trigger] after_ticks(s, k)).active is Some && same_but_pattern(s, after_ticks(s, k)),
    decreases remaining_ticks(a),
{
    lemma_step(s, a);
    assert(after_ticks(s, 0) == s);
    let n = remaining_ticks(a);
    if n == 1 {
        assert forall|k: nat| k < n implies (#[trigger] after_ticks(s, k)).active is Some && same_but_pattern(s, after_ticks(s, k)) by {
            assert(k == 0);
        }
    } else {
        let s1 = s.after_tick();
        let a2 = s1.active.unwrap();
        lemma_run(s1, a2);
        assert(finish_pattern(s1) == finish_pattern(s));
        lemma_ticks_compose(s, 1, (n - 1) as nat);
        assert forall|k: nat| k < n implies (#[trigger] after_ticks(s, k)).active is Some && same_but_pattern(s, after_ticks(s, k)) by {
            if k > 0 {
                lemma_ticks_compose(s, 1, (k - 1) as nat);
                assert(after_ticks(s1, (k - 1) as nat).active is Some);
            }
        }
    }
}

proof fn lemma_idle_stays(s: LedStateView, count: nat)
    requires
        !s.sleeping,
        s.active is None,
        s.queue.len() == 0,
        s.current_color == s.persistent_color,
    ensures
        after_ticks(s, count) == s,
    decreases count,
{
    if count > 0 {
        lemma_idle_stays(s, (count - 1) as nat);
    }
}

/// Every pending blink runs to its end, none is skipped and none runs forever:
/// with the running pattern and every queued one well shaped, the LED is busy
/// for exactly the running pattern's remaining ticks plus the queued
/// patterns' lengths, and then rests on its resting colour with nothing pending.
pub proof fn pending_blinks_drain(s: LedStateView, a: ActivePattern, count: nat)
    requires
        !s.sleeping,
        s.active == Some(a),
        running_well(a),
        forall|i: int| 0 <= i < s.queue.len() ==> well_shaped(#[trigger] s.queue[i]),
    ensures
        count < remaining_ticks(a) + queue_ticks(s.queue) ==> after_ticks(s, count).has_pending_pattern(),
        count >= remaining_ticks(a) + queue_ticks(s.queue) ==> after_ticks(s, count) == (LedStateView {
            active: None,
            current_color: s.persistent_color,
            queue: Seq::empty(),
            ..s
        }),
    decreases s.queue.len(),
{
    lemma_run(s, a);
    let n = remaining_ticks(a);
    if count < n {
        assert(after_ticks(s, count).active is Some);
    } else {
        lemma_ticks_compose(s, n, (count - n) as nat);
        let next = finish_pattern(s);
        if s.queue.len() == 0 {
            assert(s.queue =~= Seq::<BlinkPattern>::empty());
            lemma_idle_stays(next, (count - n) as nat);
        } else {
            let p = s.queue[0];
            assert(well_shaped(p));
            let a2 = spec_activate(p);
            let period = (p.on_ticks + p.off_ticks) as nat;
            let r = (p.repeats - 1) as nat;
            assert(p.repeats as nat * period == period + r * period) by (nonlinear_arith)
                requires r == p.repeats - 1;
            assert(remaining_ticks(a2) == pattern_ticks(p));
            assert forall|i: int| 0 <= i < next.queue.len() implies well_shaped(#[trigger] next.queue[i]) by {
                assert(next.queue[i] == s.queue[i + 1]);
            }
            pending_blinks_drain(next, a2, (count - n) as nat);
        }
    }
}


/// `later` keeps the settings of `s`: role, resting colour, sleep, last
/// battery reading, link type and BLE state.
pub open spec fn same_settings(s: LedStateView, later: LedStateView) -> bool {
    &&& later.role == s.role
    &&& later.persistent_color == s.persistent_color
    &&& later.sleeping == s.sleeping
    &&& later.last_battery == s.last_battery
    &&& later.connection_type == s.connection_type
    &&& later.ble_state == s.ble_state
}

proof fn lemma_enqueue_repeated_keeps_settings(s: LedStateView, pattern: BlinkPattern, count: nat)
    ensures
        same_settings(s, s.enqueue_repeated(pattern, count)),
    decreases count,
{
    if count > 0 {
        lemma_enqueue_repeated_keeps_settings(s, pattern, (count - 1) as nat);
    }
}

/// A tick only moves the blink patterns and the colour shown: it never changes
/// the resting colour, the sleep state, the last battery reading, the link
/// type, the BLE state or the role.
pub proof fn tick_keeps_settings(s: LedStateView)
    ensures
        same_settings(s, s.after_tick()),
{
}

proof fn lemma_ticks_keep_settings(s: LedStateView, count: nat)
    ensures
        same_settings(s, after_ticks(s, count)),
    decreases count,
{
    if count > 0 {
        lemma_ticks_keep_settings(s, (count - 1) as nat);
        tick_keeps_settings(after_ticks(s, (count - 1) as nat));
    }
}

/// However many ticks pass while asleep, waking shows the resting colour set
/// before sleep, with nothing pending.
pub proof fn wake_after_sleeping_ticks(s: LedStateView, count: nat)
    requires
        s.sleeping,
    ensures
        after_ticks(s, count).after_event(RgbLedEvent::Sleep(false)).current_color == s.persistent_color,
        !after_ticks(s, count).after_event(RgbLedEvent::Sleep(false)).has_pending_pattern(),
{
    lemma_ticks_keep_settings(s, count);
}

/// What each event may change among the settings: the role never changes; the
/// link type is recorded on both halves, and only by a link event; the BLE state
/// only by a BLE event on the central; the battery reading only by a reading;
/// sleep only by a sleep event; layer and sleep events keep the resting colour.
pub proof fn event_frame(s: LedStateView, event: RgbLedEvent)
    ensures
        s.after_event(event).role == s.role,
        s.after_event(event).connection_type == match event {
            RgbLedEvent::ConnectionType(link) => link,
            _ => s.connection_type,
        },
        s.after_event(event).ble_state == match event {
            RgbLedEvent::BleState(ble) => if s.role == RgbLedRole::Central {
                ble
            } else {
                s.ble_state
            },
            _ => s.ble_state,
        },
        s.after_event(event).last_battery == match event {
            RgbLedEvent::Battery(level) => Some(level),
            _ => s.last_battery,
        },
        s.after_event(event).sleeping == match event {
            RgbLedEvent::Sleep(sleeping) => sleeping,
            _ => s.sleeping,
        },
        (event is Layer || event is Sleep) ==> s.after_event(event).persistent_color == s.persistent_color,
{
    match event {
        RgbLedEvent::Battery(level) => {
            let updated = (LedStateView { last_battery: Some(level), ..s }).set_persistent_color(
                spec_battery_color(level),
            );
            lemma_enqueue_repeated_keeps_settings(updated, critical_battery_blink(), 1);
            assert(updated.enqueue_repeated(critical_battery_blink(), 0) == updated);
        },
        RgbLedEvent::Layer(layer) => {
            lemma_enqueue_repeated_keeps_settings(s, status_blink(), layer as nat);
        },
        _ => {},
    }
}

/// On the central, a link event followed by BLE going inactive leaves cyan for
/// a USB link and red for a BLE or other link.
pub proof fn central_link_then_ble_inactive(s: LedStateView, link: RgbConnectionType)
    requires
        s.role == RgbLedRole::Central,
    ensures
        s.after_event(RgbLedEvent::ConnectionType(link)).after_event(
            RgbLedEvent::BleState(RgbBleState::Inactive),
        ).persistent_color == if link == RgbConnectionType::Usb {
            RgbColor::Cyan
        } else {
            RgbColor::Red
        },
{
    event_frame(s, RgbLedEvent::ConnectionType(link));
    central_connection_colors(
        s.after_event(RgbLedEvent::ConnectionType(link)),
        RgbBleState::Inactive,
        link,
    );
}

/// A battery reading starts the low-battery warning (three red flashes, five
/// ticks lit and five dark) exactly when the previous reading was above 5
/// percent and the new one is between 1 and 5 percent: on an idle, awake LED
/// it starts at once, otherwise it is queued while there is room. Any other
/// reading leaves the running and waiting patterns as they were.
pub proof fn low_battery_warning_condition(s: LedStateView, level: u8)
    requires
        s.consistent(),
    ensures
        (s.last_battery matches Some(previous) && previous > 5 && 1 <= level <= 5) && !s.sleeping
            && !s.has_pending_pattern() ==> s.after_event(RgbLedEvent::Battery(level)).active == Some(
            ActivePattern {
                color: RgbColor::Red,
                on_ticks: 5,
                off_ticks: 5,
                repeats_left: 3,
                phase_on: true,
                ticks_left: 5,
            },
        ) && s.after_event(RgbLedEvent::Battery(level)).current_color == RgbColor::Red,
        (s.last_battery matches Some(previous) && previous > 5 && 1 <= level <= 5) && (s.active is Some
            || s.sleeping) ==> s.after_event(RgbLedEvent::Battery(level)).active == s.active
            && s.after_event(RgbLedEvent::Battery(level)).queue == queue_after_push(
            s.queue,
            BlinkPattern { color: RgbColor::Red, on_ticks: 5, off_ticks: 5, repeats: 3 },
        ),
        !(s.last_battery matches Some(previous) && previous > 5 && 1 <= level <= 5)
            ==> s.after_event(RgbLedEvent::Battery(level)).active == s.active
            && s.after_event(RgbLedEvent::Battery(level)).queue == s.queue,
{
    blink_shapes();
}

/// On the central, a change to a layer above 0 always leaves blinks pending,
/// asleep or awake.
pub proof fn central_layer_change_leaves_blinks_pending(s: LedStateView, layer: u8)
    requires
        s.consistent(),
        s.role == RgbLedRole::Central,
        layer >= 1,
    ensures
        s.after_event(RgbLedEvent::Layer(layer)).has_pending_pattern(),
{
    if s.active is Some || s.sleeping {
        central_layer_blinks_queue_when_busy(s, layer);
        if s.active is None {
            assert(s.after_event(RgbLedEvent::Layer(layer)).queue.len() > 0);
        }
    } else {
        central_layer_blinks_when_idle(s, layer);
    }
}


/// When the running pattern ends, the oldest waiting pattern starts, in its
/// lit phase, and the others keep waiting in their order.
pub proof fn oldest_queued_pattern_runs_next(s: LedStateView, a: ActivePattern)
    requires
        !s.sleeping,
        s.active == Some(a),
        running_well(a),
        s.queue.len() > 0,
    ensures
        after_ticks(s, remaining_ticks(a)).active == Some(spec_activate(s.queue[0])),
        after_ticks(s, remaining_ticks(a)).current_color == s.queue[0].color,
        after_ticks(s, remaining_ticks(a)).queue == s.queue.drop_first(),
{
    lemma_run(s, a);
}

/// A fresh indicator is dark, awake and idle, with a dark resting colour and
/// no battery reading; a fresh central counts its link as USB with BLE unused,
/// so BLE going inactive shows cyan, and a link event shows cyan for USB and
/// red for any other link.
pub proof fn fresh_indicator(role: RgbLedRole, link: RgbConnectionType)
    ensures
        LedStateView::initial(role).current_color == RgbColor::Off,
        LedStateView::initial(role).persistent_color == RgbColor::Off,
        !LedStateView::initial(role).sleeping,
        !LedStateView::initial(role).has_pending_pattern(),
        LedStateView::initial(role).last_battery is None,
        LedStateView::initial(RgbLedRole::Central).after_event(
            RgbLedEvent::BleState(RgbBleState::Inactive),
        ).current_color == RgbColor::Cyan,
        LedStateView::initial(RgbLedRole::Central).after_event(
            RgbLedEvent::ConnectionType(link),
        ).current_color == if link == RgbConnectionType::Usb {
            RgbColor::Cyan
        } else {
            RgbColor::Red
        },
{
}

} // verus!
