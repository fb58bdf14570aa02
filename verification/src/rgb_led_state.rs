use vstd::prelude::*;

verus! {

/// Length of one controller tick, in milliseconds.
pub const TICK_MS: u32 = 50;

#[derive(Clone, Copy, Debug, PartialEq, Eq, Structural)]
pub enum RgbColor {
    Off,
    Red,
    Green,
    Yellow,
    Blue,
    Magenta,
    Cyan,
    White,
}

/// The RGB bit mask of a colour: bit 0 red, bit 1 green, bit 2 blue.
pub open spec fn color_mask(color: RgbColor) -> u8 {
    match color {
        RgbColor::Off => 0,
        RgbColor::Red => 1,
        RgbColor::Green => 2,
        RgbColor::Yellow => 3,
        RgbColor::Blue => 4,
        RgbColor::Magenta => 5,
        RgbColor::Cyan => 6,
        RgbColor::White => 7,
    }
}

impl RgbColor {
    /// Returns the RGB bit mask used by the active-low GPIO driver.
    pub fn mask(self) -> (m: u8)
        ensures
            m == color_mask(self),
    {
        match self {
            RgbColor::Off => 0,
            RgbColor::Red => 0b001,
            RgbColor::Green => 0b010,
            RgbColor::Yellow => 0b011,
            RgbColor::Blue => 0b100,
            RgbColor::Magenta => 0b101,
            RgbColor::Cyan => 0b110,
            RgbColor::White => 0b111,
        }
    }
}

/// Colours and their masks correspond one to one, and every mask fits in three bits.
pub proof fn mask_identifies_color(a: RgbColor, b: RgbColor)
    ensures
        color_mask(a) < 8,
        color_mask(a) == color_mask(b) <==> a == b,
{
}

/// The colour shown for a battery level (in percent).
pub open spec fn spec_battery_color(level: u8) -> RgbColor {
    if level == 0 {
        RgbColor::Magenta
    } else if level < 20 {
        RgbColor::Red
    } else if level < 80 {
        RgbColor::Yellow
    } else {
        RgbColor::Green
    }
}

/// The battery colour by ranges: 0 percent magenta, 1 to 19 red, 20 to 79
/// yellow, 80 and above green.
pub proof fn battery_color_ranges(level: u8)
    ensures
        level == 0 ==> spec_battery_color(level) == RgbColor::Magenta,
        1 <= level <= 19 ==> spec_battery_color(level) == RgbColor::Red,
        20 <= level <= 79 ==> spec_battery_color(level) == RgbColor::Yellow,
        level >= 80 ==> spec_battery_color(level) == RgbColor::Green,
{
}

pub fn battery_color(level: u8) -> (c: RgbColor)
    ensures
        c == spec_battery_color(level),
{
    match level {
        0 => RgbColor::Magenta,
        1..=19 => RgbColor::Red,
        20..=79 => RgbColor::Yellow,
        _ => RgbColor::Green,
    }
}


#[derive(Clone, Copy, Debug, PartialEq, Eq, Structural)]
pub enum RgbLedRole {
    Central,
    Peripheral,
}

#[derive(Clone, Copy, Debug, PartialEq, Eq, Structural)]
pub enum RgbBleState {
    Advertising,
    Connected,
    /// BLE is not in use: the keyboard is on USB or asleep.
    Inactive,
}

#[derive(Clone, Copy, Debug, PartialEq, Eq, Structural)]
pub enum RgbConnectionType {
    Usb,
    Ble,
    Other,
}

#[derive(Clone, Copy, Debug, PartialEq, Eq, Structural)]
pub enum RgbLedEvent {
    Battery(u8),
    ChargingState(bool),
    Layer(u8),
    ConnectionType(RgbConnectionType),
    SplitCentral(bool),
    Sleep(bool),
    BleState(RgbBleState),
}

/// How many patterns may wait behind the one being shown.
pub const PATTERN_QUEUE_CAPACITY: usize = 16;

/// Length of each phase of a layer blink, in milliseconds.
pub const STATUS_BLINK_MS: u32 = 100;

/// Length of each phase of the low-battery warning, in milliseconds.
pub const CRITICAL_BATTERY_BLINK_MS: u32 = 250;

/// How often the low-battery warning flashes.
pub const CRITICAL_BATTERY_BLINKS: u8 = 3;

/// Number of ticks that cover `milliseconds`, rounded up, kept in a byte.
pub open spec fn spec_ticks_for(milliseconds: u32) -> u8 {
    (#[verifier::truncate] (((milliseconds + TICK_MS - 1) / (TICK_MS as int)) as u8))
}

/// The sum `milliseconds + TICK_MS` is formed before the one is taken off,
/// so it must fit in a `u32`.
fn ticks_for(milliseconds: u32) -> (t: u8)
    requires
        milliseconds + TICK_MS <= u32::MAX,
    ensures
        t == spec_ticks_for(milliseconds),
{
    (#[verifier::truncate] (((milliseconds + TICK_MS - 1) / TICK_MS) as u8))
}

/// A queued blink: `repeats` times `on_ticks` of `color` followed by `off_ticks` dark.
#[derive(Clone, Copy, Debug, PartialEq, Eq, Structural)]
pub struct BlinkPattern {
    pub color: RgbColor,
    pub on_ticks: u8,
    pub off_ticks: u8,
    pub repeats: u8,
}

pub open spec fn spec_blink_pattern(color: RgbColor, on_ms: u32, off_ms: u32, repeats: u8) -> BlinkPattern {
    BlinkPattern {
        color,
        on_ticks: spec_ticks_for(on_ms),
        off_ticks: spec_ticks_for(off_ms),
        repeats,
    }
}

impl BlinkPattern {
    fn new(color: RgbColor, on_ms: u32, off_ms: u32, repeats: u8) -> (p: Self)
        requires
            on_ms + TICK_MS <= u32::MAX,
            off_ms + TICK_MS <= u32::MAX,
        ensures
            p == spec_blink_pattern(color, on_ms, off_ms, repeats),
    {
        BlinkPattern {
            color,
            on_ticks: ticks_for(on_ms),
            off_ticks: ticks_for(off_ms),
            repeats,
        }
    }
}

/// The pattern being shown: which phase it is in and how long that phase still lasts.
#[derive(Clone, Copy, Debug, PartialEq, Eq, Structural)]
pub struct ActivePattern {
    pub color: RgbColor,
    pub on_ticks: u8,
    pub off_ticks: u8,
    pub repeats_left: u8,
    pub phase_on: bool,
    pub ticks_left: u8,
}

/// A pattern as it starts: in its lit phase, with all its repeats ahead.
pub open spec fn spec_activate(pattern: BlinkPattern) -> ActivePattern {
    ActivePattern {
        color: pattern.color,
        on_ticks: pattern.on_ticks,
        off_ticks: pattern.off_ticks,
        repeats_left: pattern.repeats,
        phase_on: true,
        ticks_left: pattern.on_ticks,
    }
}

/// A queue after offering it one pattern: appended while there is room, dropped otherwise.
pub open spec fn queue_after_push(queue: Seq<BlinkPattern>, pattern: BlinkPattern) -> Seq<BlinkPattern> {
    if queue.len() < PATTERN_QUEUE_CAPACITY {
        queue.push(pattern)
    } else {
        queue
    }
}

/// A queue after one pop: its oldest pattern, if any, and what stays.
pub open spec fn queue_after_pop(queue: Seq<BlinkPattern>) -> (Option<BlinkPattern>, Seq<BlinkPattern>) {
    if queue.len() == 0 {
        (None, queue)
    } else {
        (Some(queue[0]), queue.drop_first())
    }
}

/// A first-in first-out queue of at most `PATTERN_QUEUE_CAPACITY` patterns,
/// kept in a fixed array: the first `len` slots are filled, the rest empty.
struct PatternQueue {
    items: [Option<BlinkPattern>; PATTERN_QUEUE_CAPACITY],
    len: usize,
}

impl View for PatternQueue {
    type V = Seq<BlinkPattern>;

    closed spec fn view(&self) -> Seq<BlinkPattern> {
        Seq::new(self.len as nat, |i: int| self.items@[i].unwrap())
    }
}

impl PatternQueue {
    spec fn wf(&self) -> bool {
        &&& self.len <= PATTERN_QUEUE_CAPACITY
        &&& forall|i: int| 0 <= i < PATTERN_QUEUE_CAPACITY ==> (#[trigger] self.items@[i] is Some <==> i < self.len)
    }

    fn new() -> (q: Self)
        ensures
            q.wf(),
            q@ == Seq::<BlinkPattern>::empty(),
    {
        let q = PatternQueue { items: [None; PATTERN_QUEUE_CAPACITY], len: 0 };
        assert(q@ =~= Seq::<BlinkPattern>::empty());
        q
    }

    fn clear(&mut self)
        ensures
            final(self).wf(),
            final(self)@ == Seq::<BlinkPattern>::empty(),
    {
        self.items = [None; PATTERN_QUEUE_CAPACITY];
        self.len = 0;
        assert(self@ =~= Seq::<BlinkPattern>::empty());
    }

    fn push(&mut self, pattern: BlinkPattern) -> (pushed: bool)
        requires
            old(self).wf(),
        ensures
            final(self).wf(),
            pushed == (old(self)@.len() < PATTERN_QUEUE_CAPACITY),
            pushed ==> final(self)@ == old(self)@.push(pattern),
            !pushed ==> final(self)@ == old(self)@,
            final(self)@ == queue_after_push(old(self)@, pattern),
    {
        if self.len == PATTERN_QUEUE_CAPACITY {
            return false;
        }
        let ghost before = self@;
        self.items[self.len] = Some(pattern);
        self.len += 1;
        assert(self@ =~= before.push(pattern));
        true
    }

    fn pop(&mut self) -> (popped: Option<BlinkPattern>)
        requires
            old(self).wf(),
        ensures
            final(self).wf(),
            old(self)@.len() == 0 ==> popped is None && final(self)@ == old(self)@,
            old(self)@.len() > 0 ==> popped == Some(old(self)@[0]) && final(self)@ == old(self)@.drop_first(),
            (popped, final(self)@) == queue_after_pop(old(self)@),
    {
        let pattern = match self.items[0] {
            Some(p) => p,
            None => {
                return None;
            },
        };
        let ghost before = self@;
        let ghost old_items = self.items@;
        let len = self.len;
        for index in 1..len
            invariant
                len == self.len,
                1 <= len <= PATTERN_QUEUE_CAPACITY,
                old_items.len() == PATTERN_QUEUE_CAPACITY,
                forall|j: int| 0 <= j < index - 1 ==> #[trigger] self.items@[j] == old_items[j + 1],
                forall|j: int| index - 1 <= j < PATTERN_QUEUE_CAPACITY ==> #[trigger] self.items@[j] == old_items[j],
                forall|i: int| 0 <= i < PATTERN_QUEUE_CAPACITY ==> (#[trigger] old_items[i] is Some <==> i < len),
        {
            self.items[index - 1] = self.items[index];
        }
        self.items[len - 1] = None;
        self.len = len - 1;
        assert(self@ =~= before.drop_first());
        Some(pattern)
    }
}


/// The abstract state of the indicator.
pub struct LedStateView {
    pub role: RgbLedRole,
    /// What the LED shows now.
    pub current_color: RgbColor,
    /// What the LED shows when no pattern runs and the keyboard is awake.
    pub persistent_color: RgbColor,
    /// Patterns waiting behind the active one, oldest first.
    pub queue: Seq<BlinkPattern>,
    pub active: Option<ActivePattern>,
    pub sleeping: bool,
    pub last_battery: Option<u8>,
    pub connection_type: RgbConnectionType,
    pub ble_state: RgbBleState,
}

/// The blink shown once per active layer number.
pub open spec fn status_blink() -> BlinkPattern {
    spec_blink_pattern(RgbColor::Cyan, STATUS_BLINK_MS, STATUS_BLINK_MS, 1)
}

/// The warning shown when the battery falls to a critical level.
pub open spec fn critical_battery_blink() -> BlinkPattern {
    spec_blink_pattern(RgbColor::Red, CRITICAL_BATTERY_BLINK_MS, CRITICAL_BATTERY_BLINK_MS, CRITICAL_BATTERY_BLINKS)
}

/// A battery reading that crosses into the critical range (1 to 5 percent) from above it.
pub open spec fn is_critical_drop(previous: u8, level: u8) -> bool {
    0 < level <= 5 && previous > 5
}

impl LedStateView {
    /// The state a controller starts in.
    pub open spec fn initial(role: RgbLedRole) -> LedStateView {
        LedStateView {
            role,
            current_color: RgbColor::Off,
            persistent_color: RgbColor::Off,
            queue: Seq::empty(),
            active: None,
            sleeping: false,
            last_battery: None,
            connection_type: RgbConnectionType::Usb,
            ble_state: RgbBleState::Inactive,
        }
    }

    /// The colour the LED ought to show: dark while asleep, the running blink's
    /// phase while one runs, the resting colour otherwise.
    pub open spec fn shown_color(self) -> RgbColor {
        if self.sleeping {
            RgbColor::Off
        } else {
            match self.active {
                Some(a) => if a.phase_on { a.color } else { RgbColor::Off },
                None => self.persistent_color,
            }
        }
    }

    /// The state agrees with itself: the LED shows `shown_color`, nothing runs
    /// while asleep, nothing waits while awake and idle, and the queue stays
    /// within its capacity.
    pub open spec fn consistent(self) -> bool {
        &&& self.current_color == self.shown_color()
        &&& self.sleeping ==> self.active is None
        &&& (!self.sleeping && self.active is None) ==> self.queue.len() == 0
        &&& self.queue.len() <= PATTERN_QUEUE_CAPACITY
    }

    pub open spec fn has_pending_pattern(self) -> bool {
        self.active is Some || self.queue.len() != 0
    }

    /// The colour a central shows for its host link.
    pub open spec fn central_connection_color(self) -> RgbColor {
        match self.ble_state {
            RgbBleState::Advertising => RgbColor::Yellow,
            RgbBleState::Connected => RgbColor::Blue,
            RgbBleState::Inactive => match self.connection_type {
                RgbConnectionType::Usb => RgbColor::Cyan,
                RgbConnectionType::Ble | RgbConnectionType::Other => RgbColor::Red,
            },
        }
    }

    /// Sets the resting colour; it shows at once when nothing blinks and the keyboard is awake.
    pub open spec fn set_persistent_color(self, color: RgbColor) -> LedStateView {
        LedStateView {
            persistent_color: color,
            current_color: if self.active is None && !self.sleeping { color } else { self.current_color },
            ..self
        }
    }

    /// Takes the oldest queued pattern and shows it; with none queued, shows the resting colour.
    pub open spec fn start_next_pattern(self) -> LedStateView {
        if self.sleeping {
            self
        } else if self.queue.len() > 0 {
            LedStateView {
                active: Some(spec_activate(self.queue[0])),
                current_color: self.queue[0].color,
                queue: self.queue.drop_first(),
                ..self
            }
        } else {
            LedStateView { current_color: self.persistent_color, ..self }
        }
    }

    /// Queues a pattern unless the queue is full; an idle awake LED starts it at once.
    pub open spec fn enqueue_pattern(self, pattern: BlinkPattern) -> LedStateView {
        if self.queue.len() < PATTERN_QUEUE_CAPACITY {
            let queued = LedStateView { queue: self.queue.push(pattern), ..self };
            if self.active is None && !self.sleeping {
                queued.start_next_pattern()
            } else {
                queued
            }
        } else {
            self
        }
    }

    /// `enqueue_pattern` applied `count` times.
    pub open spec fn enqueue_repeated(self, pattern: BlinkPattern, count: nat) -> LedStateView
        decreases count,
    {
        if count == 0 {
            self
        } else {
            self.enqueue_repeated(pattern, (count - 1) as nat).enqueue_pattern(pattern)
        }
    }

    pub open spec fn handle_battery(self, level: u8) -> LedStateView {
        let updated = (LedStateView { last_battery: Some(level), ..self }).set_persistent_color(
            spec_battery_color(level),
        );
        match self.last_battery {
            Some(previous) => if is_critical_drop(previous, level) {
                updated.enqueue_pattern(critical_battery_blink())
            } else {
                updated
            },
            None => updated,
        }
    }

    pub open spec fn handle_sleep(self, sleeping: bool) -> LedStateView {
        LedStateView {
            sleeping,
            queue: Seq::empty(),
            active: None,
            current_color: if sleeping { RgbColor::Off } else { self.persistent_color },
            ..self
        }
    }

    /// The state after one event.
    pub open spec fn after_event(self, event: RgbLedEvent) -> LedStateView {
        match event {
            RgbLedEvent::Battery(level) => self.handle_battery(level),
            RgbLedEvent::ChargingState(charging) => if charging {
                self.set_persistent_color(RgbColor::Green)
            } else {
                match self.last_battery {
                    Some(level) => self.set_persistent_color(spec_battery_color(level)),
                    None => self,
                }
            },
            RgbLedEvent::Layer(layer) => if self.role == RgbLedRole::Central {
                self.enqueue_repeated(status_blink(), layer as nat)
            } else {
                self
            },
            RgbLedEvent::ConnectionType(connection_type) => {
                let updated = LedStateView { connection_type, ..self };
                if self.role == RgbLedRole::Central {
                    updated.set_persistent_color(updated.central_connection_color())
                } else {
                    updated
                }
            },
            RgbLedEvent::SplitCentral(connected) => if self.role == RgbLedRole::Peripheral {
                self.set_persistent_color(if connected { RgbColor::Blue } else { RgbColor::Red })
            } else {
                self
            },
            RgbLedEvent::Sleep(sleeping) => self.handle_sleep(sleeping),
            RgbLedEvent::BleState(ble_state) => if self.role == RgbLedRole::Central {
                let updated = LedStateView { ble_state, ..self };
                updated.set_persistent_color(updated.central_connection_color())
            } else {
                self
            },
        }
    }

    /// The state after one tick of `TICK_MS`.
    pub open spec fn after_tick(self) -> LedStateView {
        if self.sleeping {
            LedStateView { current_color: RgbColor::Off, ..self }
        } else {
            match self.active {
                None => self.start_next_pattern(),
                Some(a) => {
                    if a.ticks_left > 1 {
                    LedStateView {
                        active: Some(ActivePattern { ticks_left: (a.ticks_left - 1) as u8, ..a }),
                        ..self
                    }
                } else if a.phase_on {
                    LedStateView {
                        active: Some(ActivePattern { phase_on: false, ticks_left: a.off_ticks, ..a }),
                        current_color: RgbColor::Off,
                        ..self
                    }
                } else if a.repeats_left > 1 {
                    LedStateView {
                        active: Some(
                            ActivePattern {
                                repeats_left: (a.repeats_left - 1) as u8,
                                phase_on: true,
                                ticks_left: a.on_ticks,
                                ..a
                            },
                        ),
                        current_color: a.color,
                        ..self
                    }
                } else {
                    (LedStateView { active: None, current_color: self.persistent_color, ..self }).start_next_pattern()
                }
                },
            }
        }
    }
}

/// The indicator state machine of one half of the keyboard.
pub struct RgbLedState {
    role: RgbLedRole,
    current_color: RgbColor,
    persistent_color: RgbColor,
    queue: PatternQueue,
    active: Option<ActivePattern>,
    sleeping: bool,
    last_battery: Option<u8>,
    connection_type: RgbConnectionType,
    ble_state: RgbBleState,
}

impl View for RgbLedState {
    type V = LedStateView;

    closed spec fn view(&self) -> LedStateView {
        LedStateView {
            role: self.role,
            current_color: self.current_color,
            persistent_color: self.persistent_color,
            queue: self.queue@,
            active: self.active,
            sleeping: self.sleeping,
            last_battery: self.last_battery,
            connection_type: self.connection_type,
            ble_state: self.ble_state,
        }
    }
}

impl RgbLedState {
    /// The internal representation is sound: the queue's array agrees with its length.
    pub closed spec fn wf(&self) -> bool {
        self.queue.wf()
    }

    pub fn new(role: RgbLedRole) -> (s: Self)
        ensures
            s.wf(),
            s@ == LedStateView::initial(role),
    {
        RgbLedState {
            role,
            current_color: RgbColor::Off,
            persistent_color: RgbColor::Off,
            queue: PatternQueue::new(),
            active: None,
            sleeping: false,
            last_battery: None,
            connection_type: RgbConnectionType::Usb,
            ble_state: RgbBleState::Inactive,
        }
    }

    pub fn current_color(&self) -> (c: RgbColor)
        ensures
            c == self@.current_color,
    {
        self.current_color
    }

    /// Whether a blink pattern is showing or waiting.
    pub fn has_pending_pattern(&self) -> (b: bool)
        ensures
            b == self@.has_pending_pattern(),
    {
        self.active.is_some() || self.queue.len != 0
    }

    pub fn handle_event(&mut self, event: RgbLedEvent)
        requires
            old(self).wf(),
        ensures
            final(self).wf(),
            final(self)@ == old(self)@.after_event(event),
    {
        match event {
            RgbLedEvent::Battery(level) => self.handle_battery(level),
            RgbLedEvent::ChargingState(charging) => {
                if charging {
                    self.set_persistent_color(RgbColor::Green);
                } else if let Some(level) = self.last_battery {
                    self.set_persistent_color(battery_color(level));
                }
            },
            RgbLedEvent::Layer(layer) => {
                if self.role == RgbLedRole::Central {
                    self.handle_layer(layer);
                }
            },
            RgbLedEvent::ConnectionType(connection_type) => {
                self.connection_type = connection_type;
                if self.role == RgbLedRole::Central {
                    let color = self.central_connection_color();
                    self.set_persistent_color(color);
                }
            },
            RgbLedEvent::SplitCentral(connected) => {
                if self.role == RgbLedRole::Peripheral {
                    self.set_persistent_color(
                        if connected {
                            RgbColor::Blue
                        } else {
                            RgbColor::Red
                        },
                    );
                }
            },
            RgbLedEvent::Sleep(sleeping) => self.handle_sleep(sleeping),
            RgbLedEvent::BleState(ble_state) => {
                if self.role == RgbLedRole::Central {
                    self.ble_state = ble_state;
                    let color = self.central_connection_color();
                    self.set_persistent_color(color);
                }
            },
        }
    }

    /// Advances the blink patterns by one tick.
    pub fn tick(&mut self)
        requires
            old(self).wf(),
        ensures
            final(self).wf(),
            final(self)@ == old(self)@.after_tick(),
    {
        if self.sleeping {
            self.current_color = RgbColor::Off;
            return;
        }
        let mut active = match self.active {
            Some(a) => a,
            None => {
                self.start_next_pattern();
                return;
            },
        };

        if active.ticks_left > 1 {
            active.ticks_left = active.ticks_left - 1;
            self.active = Some(active);
            return;
        }
        if active.phase_on {
            active.phase_on = false;
            active.ticks_left = active.off_ticks;
            self.current_color = RgbColor::Off;
            self.active = Some(active);
        } else if active.repeats_left > 1 {
            active.repeats_left = active.repeats_left - 1;
            active.phase_on = true;
            active.ticks_left = active.on_ticks;
            self.current_color = active.color;
            self.active = Some(active);
        } else {
            self.active = None;
            self.current_color = self.persistent_color;
            self.start_next_pattern();
        }
    }

    fn handle_battery(&mut self, level: u8)
        requires
            old(self).wf(),
        ensures
            final(self).wf(),
            final(self)@ == old(self)@.handle_battery(level),
    {
        let previous = self.last_battery;
        self.last_battery = Some(level);
        self.set_persistent_color(battery_color(level));

        if let Some(previous) = previous {
            if level > 0 && level <= 5 && previous > 5 {
                self.enqueue_pattern(
                    BlinkPattern::new(
                        RgbColor::Red,
                        CRITICAL_BATTERY_BLINK_MS,
                        CRITICAL_BATTERY_BLINK_MS,
                        CRITICAL_BATTERY_BLINKS,
                    ),
                );
            }
        }
    }

    fn handle_layer(&mut self, layer: u8)
        requires
            old(self).wf(),
        ensures
            final(self).wf(),
            final(self)@ == old(self)@.enqueue_repeated(status_blink(), layer as nat),
    {
        let ghost start = self@;
        for count in 0..layer
            invariant
                self.wf(),
                self@ == start.enqueue_repeated(status_blink(), count as nat),
        {
            self.enqueue_pattern(BlinkPattern::new(RgbColor::Cyan, STATUS_BLINK_MS, STATUS_BLINK_MS, 1));
        }
    }

    fn handle_sleep(&mut self, sleeping: bool)
        requires
            old(self).wf(),
        ensures
            final(self).wf(),
            final(self)@ == old(self)@.handle_sleep(sleeping),
    {
        self.sleeping = sleeping;
        self.queue.clear();
        self.active = None;
        self.current_color = if sleeping {
            RgbColor::Off
        } else {
            self.persistent_color
        };
    }

    fn central_connection_color(&self) -> (c: RgbColor)
        ensures
            c == self@.central_connection_color(),
    {
        match self.ble_state {
            RgbBleState::Advertising => RgbColor::Yellow,
            RgbBleState::Connected => RgbColor::Blue,
            RgbBleState::Inactive => match self.connection_type {
                RgbConnectionType::Usb => RgbColor::Cyan,
                RgbConnectionType::Ble | RgbConnectionType::Other => RgbColor::Red,
            },
        }
    }

    fn set_persistent_color(&mut self, color: RgbColor)
        requires
            old(self).wf(),
        ensures
            final(self).wf(),
            final(self)@ == old(self)@.set_persistent_color(color),
    {
        self.persistent_color = color;
        if self.active.is_none() && !self.sleeping {
            self.current_color = color;
        }
    }

    fn enqueue_pattern(&mut self, pattern: BlinkPattern)
        requires
            old(self).wf(),
        ensures
            final(self).wf(),
            final(self)@ == old(self)@.enqueue_pattern(pattern),
    {
        if self.queue.push(pattern) && self.active.is_none() && !self.sleeping {
            self.start_next_pattern();
        }
    }

    fn start_next_pattern(&mut self)
        requires
            old(self).wf(),
        ensures
            final(self).wf(),
            final(self)@ == old(self)@.start_next_pattern(),
    {
        if self.sleeping {
            return;
        }
        if let Some(pattern) = self.queue.pop() {
            self.active = Some(
                ActivePattern {
                    color: pattern.color,
                    on_ticks: pattern.on_ticks,
                    off_ticks: pattern.off_ticks,
                    repeats_left: pattern.repeats,
                    phase_on: true,
                    ticks_left: pattern.on_ticks,
                },
            );
            self.current_color = pattern.color;
        } else {
            self.current_color = self.persistent_color;
        }
    }
}

} // verus!
