//! The whole board: four breathing LEDs, the display mode and the pace,
//! driven by button presses and by the main loop's steps.

use vstd::prelude::*;

use crate::table::BREATHING_TABLE;
use crate::led::{lemma_advanced_phase, STEADY_HIGH_DUTY, STEADY_LOW_DUTY, lemma_breath_period, Direction, LedState, Mode, BREATH_PERIOD};

verus! {

/// Slowest pace: the number of timer periods that each step lasts at most.
pub const MAX_SPEED: u8 = 3;

/// Fastest pace.
pub const MIN_SPEED: u8 = 1;

/// One of the four LEDs, in the order that the main loop steps them.
#[derive(Clone, Copy, Debug, PartialEq, Eq, Structural)]
pub enum Led {
    A,
    B,
    C,
    D,
}

/// One of the four buttons.
#[derive(Clone, Copy, Debug, PartialEq, Eq, Structural)]
pub enum Key {
    /// Turns every LED around.
    Reverse,
    /// Makes each step one timer period longer, up to `MAX_SPEED`.
    Slower,
    /// Makes each step one timer period shorter, down to `MIN_SPEED`.
    Faster,
    /// Switches between breathing and steady output.
    ToggleMode,
}

/// What the main loop does for one LED step: set the LED's PWM duty, then
/// wait for the timer `waits` times.
#[derive(Clone, Copy, Debug, PartialEq, Eq, Structural)]
pub struct Step {
    pub duty: u16,
    pub waits: u8,
}

/// State of the whole board.
#[derive(Clone, Copy, Debug, PartialEq, Eq, Structural)]
pub struct Controller {
    pub a: LedState,
    pub b: LedState,
    pub c: LedState,
    pub d: LedState,
    pub mode: Mode,
    /// Number of timer periods that each step lasts.
    pub speed: u8,
}

/// Number of timer periods that a step lasts at pace `speed`: the pace
/// itself for the paces `MIN_SPEED..=MAX_SPEED`, none for any other value.
pub open spec fn wait_count(speed: u8) -> u8 {
    if MIN_SPEED <= speed <= MAX_SPEED {
        speed
    } else {
        0
    }
}

/// Number of timer periods that a step lasts at pace `speed`.
pub fn waits_for(speed: u8) -> (waits: u8)
    ensures
        waits == wait_count(speed),
        1 <= speed <= 3 ==> waits == speed,
        speed == 0 || speed > 3 ==> waits == 0,
{
    if speed == 1 {
        1
    } else if speed == 2 {
        2
    } else if speed == 3 {
        3
    } else {
        0
    }
}

impl Controller {
    /// Every LED lies on the curve and the pace is one of the three paces.
    pub open spec fn wf(self) -> bool {
        &&& self.a.wf()
        &&& self.b.wf()
        &&& self.c.wf()
        &&& self.d.wf()
        &&& MIN_SPEED <= self.speed <= MAX_SPEED
    }

    /// The state of LED `led`.
    pub open spec fn led(self, led: Led) -> LedState {
        match led {
            Led::A => self.a,
            Led::B => self.b,
            Led::C => self.c,
            Led::D => self.d,
        }
    }

    /// The board with LED `led` replaced by `s`.
    pub open spec fn with_led(self, led: Led, s: LedState) -> Controller {
        match led {
            Led::A => Controller { a: s, ..self },
            Led::B => Controller { b: s, ..self },
            Led::C => Controller { c: s, ..self },
            Led::D => Controller { d: s, ..self },
        }
    }

    /// The board with every LED turned around.
    pub open spec fn reversed(self) -> Controller {
        Controller {
            a: self.a.reversed(),
            b: self.b.reversed(),
            c: self.c.reversed(),
            d: self.d.reversed(),
            ..self
        }
    }

    /// The pace after a press of `Key::Slower`.
    pub open spec fn slower_speed(self) -> u8 {
        if self.speed >= MAX_SPEED {
            self.speed
        } else {
            (self.speed + 1) as u8
        }
    }

    /// The pace after a press of `Key::Faster`.
    pub open spec fn faster_speed(self) -> u8 {
        if self.speed <= MIN_SPEED {
            self.speed
        } else {
            (self.speed - 1) as u8
        }
    }

    /// The board after a press of `key`.
    pub open spec fn after_key(self, key: Key) -> Controller {
        match key {
            Key::Reverse => self.reversed(),
            Key::Slower => Controller { speed: self.slower_speed(), ..self },
            Key::Faster => Controller { speed: self.faster_speed(), ..self },
            Key::ToggleMode => Controller { mode: self.mode.toggled(), ..self },
        }
    }

    /// The board after one step of LED `led`.
    pub open spec fn after_step(self, led: Led) -> Controller {
        self.with_led(led, self.led(led).next())
    }

    /// The board after one pass of the main loop: one step of each LED,
    /// in the order A, B, C, D, with no button pressed in between.
    pub open spec fn after_pass(self) -> Controller {
        self.after_step(Led::A).after_step(Led::B).after_step(Led::C).after_step(Led::D)
    }

    /// The board after `n` passes of the main loop.
    pub open spec fn after_passes(self, n: nat) -> Controller
        decreases n,
    {
        if n == 0 {
            self
        } else {
            self.after_passes((n - 1) as nat).after_pass()
        }
    }

    /// Every LED lies on its breathing cycle.
    pub open spec fn on_cycle(self) -> bool {
        &&& self.a.on_cycle()
        &&& self.b.on_cycle()
        &&& self.c.on_cycle()
        &&& self.d.on_cycle()
    }

    /// What one step of LED `led` asks the main loop to do.
    pub open spec fn step_of(self, led: Led) -> Step {
        Step { duty: self.led(led).duty(self.mode), waits: wait_count(self.speed) }
    }

    /// The board at power-up: the LEDs spread a quarter of the curve apart,
    /// all rising, breathing, at the fastest pace.
    pub fn new() -> (c: Controller)
        ensures
            c.wf(),
            c.a == (LedState { index: 1, direction: Direction::Rising }),
            c.b == (LedState { index: 33, direction: Direction::Rising }),
            c.c == (LedState { index: 65, direction: Direction::Rising }),
            c.d == (LedState { index: 97, direction: Direction::Rising }),
            c.mode == Mode::Breathing,
            c.speed == MIN_SPEED,
    {
        Controller {
            a: LedState { index: 1, direction: Direction::Rising },
            b: LedState { index: 33, direction: Direction::Rising },
            c: LedState { index: 65, direction: Direction::Rising },
            d: LedState { index: 97, direction: Direction::Rising },
            mode: Mode::Breathing,
            speed: MIN_SPEED,
        }
    }

    /// Turns LED A around.
    pub fn swapa(&mut self)
        ensures
            *final(self) == old(self).with_led(Led::A, old(self).a.reversed()),
            final(self).a.direction != old(self).a.direction,
            final(self).a.index == old(self).a.index,
            final(self).b == old(self).b,
            final(self).c == old(self).c,
            final(self).d == old(self).d,
            final(self).mode == old(self).mode,
            final(self).speed == old(self).speed,
    {
        self.a.reverse();
    }

    /// Turns LED B around.
    pub fn swapb(&mut self)
        ensures
            *final(self) == old(self).with_led(Led::B, old(self).b.reversed()),
            final(self).b.direction != old(self).b.direction,
            final(self).b.index == old(self).b.index,
            final(self).a == old(self).a,
            final(self).c == old(self).c,
            final(self).d == old(self).d,
            final(self).mode == old(self).mode,
            final(self).speed == old(self).speed,
    {
        self.b.reverse();
    }

    /// Turns LED C around.
    pub fn swapc(&mut self)
        ensures
            *final(self) == old(self).with_led(Led::C, old(self).c.reversed()),
            final(self).c.direction != old(self).c.direction,
            final(self).c.index == old(self).c.index,
            final(self).a == old(self).a,
            final(self).b == old(self).b,
            final(self).d == old(self).d,
            final(self).mode == old(self).mode,
            final(self).speed == old(self).speed,
    {
        self.c.reverse();
    }

    /// Turns LED D around.
    pub fn swapd(&mut self)
        ensures
            *final(self) == old(self).with_led(Led::D, old(self).d.reversed()),
            final(self).d.direction != old(self).d.direction,
            final(self).d.index == old(self).d.index,
            final(self).a == old(self).a,
            final(self).b == old(self).b,
            final(self).c == old(self).c,
            final(self).mode == old(self).mode,
            final(self).speed == old(self).speed,
    {
        self.d.reverse();
    }

    /// What the first button does: turns every LED around.
    pub fn reverse_all(&mut self)
        ensures
            *final(self) == old(self).reversed(),
            final(self).a.direction != old(self).a.direction,
            final(self).b.direction != old(self).b.direction,
            final(self).c.direction != old(self).c.direction,
            final(self).d.direction != old(self).d.direction,
            final(self).a.index == old(self).a.index,
            final(self).b.index == old(self).b.index,
            final(self).c.index == old(self).c.index,
            final(self).d.index == old(self).d.index,
            final(self).mode == old(self).mode,
            final(self).speed == old(self).speed,
    {
        self.swapa();
        self.swapb();
        self.swapc();
        self.swapd();
    }

    /// What the second button does: makes each step one timer period
    /// longer, unless the pace is already `MAX_SPEED` or more.
    pub fn slow_down(&mut self)
        ensures
            *final(self) == (Controller { speed: old(self).slower_speed(), ..*old(self) }),
    {
        if self.speed >= MAX_SPEED {
        } else {
            self.speed = self.speed + 1;
        }
    }

    /// What the third button does: makes each step one timer period
    /// shorter, unless the pace is already `MIN_SPEED` or less.
    pub fn speed_up(&mut self)
        ensures
            *final(self) == (Controller { speed: old(self).faster_speed(), ..*old(self) }),
    {
        if self.speed <= MIN_SPEED {
        } else {
            self.speed = self.speed - 1;
        }
    }

    /// What the fourth button does: switches between breathing and steady
    /// output.
    pub fn toggle_mode(&mut self)
        ensures
            *final(self) == (Controller { mode: old(self).mode.toggled(), ..*old(self) }),
            final(self).mode != old(self).mode,
    {
        self.mode = match self.mode {
            Mode::Breathing => Mode::Steady,
            Mode::Steady => Mode::Breathing,
        };
    }

    /// Handles a press of `key`.
    pub fn press(&mut self, key: Key)
        ensures
            *final(self) == old(self).after_key(key),
            old(self).wf() ==> final(self).wf(),
            key == Key::ToggleMode ==> final(self).mode != old(self).mode,
            key == Key::Reverse ==> final(self).a.direction != old(self).a.direction
                && final(self).b.direction != old(self).b.direction && final(self).c.direction
                != old(self).c.direction && final(self).d.direction != old(self).d.direction,
            key != Key::Reverse ==> final(self).a == old(self).a && final(self).b == old(self).b
                && final(self).c == old(self).c && final(self).d == old(self).d,
            key != Key::ToggleMode ==> final(self).mode == old(self).mode,
            key == Key::Reverse || key == Key::ToggleMode ==> final(self).speed == old(self).speed,
            key == Key::Slower && old(self).speed < MAX_SPEED ==> final(self).speed == old(self).speed + 1,
            key == Key::Faster && old(self).speed > MIN_SPEED ==> final(self).speed + 1 == old(self).speed,
    {
        match key {
            Key::Reverse => self.reverse_all(),
            Key::Slower => self.slow_down(),
            Key::Faster => self.speed_up(),
            Key::ToggleMode => self.toggle_mode(),
        }
    }

    /// Makes one step of LED `led` and says what the main loop is to do
    /// for it.
    pub fn step_led(&mut self, led: Led) -> (step: Step)
        requires
            old(self).wf(),
        ensures
            *final(self) == old(self).after_step(led),
            final(self).wf(),
            step == old(self).step_of(led),
            final(self).mode == old(self).mode,
            final(self).speed == old(self).speed,
            old(self).mode == Mode::Breathing ==> step.duty
                == BREATHING_TABLE[final(self).led(led).index as int],
            old(self).mode == Mode::Steady && old(self).led(led).direction == Direction::Rising
                ==> step.duty == STEADY_LOW_DUTY,
            old(self).mode == Mode::Steady && old(self).led(led).direction == Direction::Falling
                ==> step.duty == STEADY_HIGH_DUTY,
            step.waits == old(self).speed,
    {
        let mode = self.mode;
        let duty = match led {
            Led::A => self.a.advance(mode),
            Led::B => self.b.advance(mode),
            Led::C => self.c.advance(mode),
            Led::D => self.d.advance(mode),
        };
        Step { duty, waits: waits_for(self.speed) }
    }
}

/// Every button press and every step keeps the board well formed.
pub proof fn lemma_wf_preserved(c: Controller, key: Key, led: Led)
    requires
        c.wf(),
    ensures
        c.after_key(key).wf(),
        c.after_step(led).wf(),
{
}

/// Each step lasts as many timer periods as the pace says, between one
/// and three.
pub proof fn lemma_step_waits(c: Controller, led: Led)
    requires
        c.wf(),
    ensures
        c.step_of(led).waits == c.speed,
        1 <= c.step_of(led).waits <= 3,
{
}

/// A step moves only the LED it is for; mode and pace stay as they are.
pub proof fn lemma_step_touches_one_led(c: Controller, led: Led, other: Led)
    requires
        other != led,
    ensures
        c.after_step(led).led(other) == c.led(other),
        c.after_step(led).led(led) == c.led(led).next(),
        c.after_step(led).mode == c.mode,
        c.after_step(led).speed == c.speed,
{
}

/// The step of an LED reports that LED's own duty under the board's mode,
/// whatever the other LEDs are doing: the curve's value at its new place
/// while breathing, and in steady mode the low duty if it was rising and
/// the high duty if it was falling. It lasts as many timer periods as the
/// pace.
pub proof fn lemma_step_reports_own_led(c: Controller, led: Led)
    requires
        c.wf(),
    ensures
        c.step_of(led).duty == c.led(led).duty(c.mode),
        c.mode == Mode::Breathing ==> c.step_of(led).duty
            == BREATHING_TABLE[c.after_step(led).led(led).index as int],
        c.mode == Mode::Steady && c.led(led).direction == Direction::Rising ==> c.step_of(led).duty
            == STEADY_LOW_DUTY,
        c.mode == Mode::Steady && c.led(led).direction == Direction::Falling
            ==> c.step_of(led).duty == STEADY_HIGH_DUTY,
        c.step_of(led).waits == c.speed,
        forall|d: Controller|
            d.mode == c.mode && d.speed == c.speed && #[trigger] d.led(led) == c.led(led)
                ==> d.step_of(led) == c.step_of(led),
{
}

/// The first button turns every LED around in place, at every pace and in
/// either mode, and changes nothing else.
pub proof fn lemma_reverse_key_flips_every_led(c: Controller, led: Led)
    ensures
        c.after_key(Key::Reverse).led(led).direction != c.led(led).direction,
        c.after_key(Key::Reverse).led(led).direction == c.led(led).direction.flipped(),
        c.after_key(Key::Reverse).led(led).index == c.led(led).index,
        c.after_key(Key::Reverse).mode == c.mode,
        c.after_key(Key::Reverse).speed == c.speed,
{
}

/// The fourth button always switches the mode, at every pace, and changes
/// nothing else.
pub proof fn lemma_mode_key_switches_mode(c: Controller)
    ensures
        c.after_key(Key::ToggleMode).mode != c.mode,
        c.mode == Mode::Breathing ==> c.after_key(Key::ToggleMode).mode == Mode::Steady,
        c.mode == Mode::Steady ==> c.after_key(Key::ToggleMode).mode == Mode::Breathing,
        c.after_key(Key::ToggleMode).a == c.a,
        c.after_key(Key::ToggleMode).b == c.b,
        c.after_key(Key::ToggleMode).c == c.c,
        c.after_key(Key::ToggleMode).d == c.d,
        c.after_key(Key::ToggleMode).speed == c.speed,
{
}

/// The second and third buttons move the pace by one towards their end,
/// stop there, and change nothing else.
pub proof fn lemma_speed_keys_step_by_one(c: Controller, key: Key, led: Led)
    requires
        key == Key::Slower || key == Key::Faster,
    ensures
        key == Key::Slower && c.speed < MAX_SPEED ==> c.after_key(key).speed == c.speed + 1,
        key == Key::Slower && c.speed >= MAX_SPEED ==> c.after_key(key).speed == c.speed,
        key == Key::Faster && c.speed > MIN_SPEED ==> c.after_key(key).speed + 1 == c.speed,
        key == Key::Faster && c.speed <= MIN_SPEED ==> c.after_key(key).speed == c.speed,
        c.after_key(key).led(led) == c.led(led),
        c.after_key(key).mode == c.mode,
{
}

/// Pressing the first button twice leaves the board as it was.
pub proof fn lemma_reverse_key_twice(c: Controller)
    ensures
        c.after_key(Key::Reverse).after_key(Key::Reverse) == c,
{
}

/// Pressing the fourth button twice leaves the board as it was.
pub proof fn lemma_mode_key_twice(c: Controller)
    ensures
        c.after_key(Key::ToggleMode).after_key(Key::ToggleMode) == c,
{
}

/// The first button changes only directions, the other three change
/// nothing about the LEDs' positions.
pub proof fn lemma_keys_keep_positions(c: Controller, key: Key, led: Led)
    ensures
        c.after_key(key).led(led).index == c.led(led).index,
        key != Key::Reverse ==> c.after_key(key).led(led) == c.led(led),
        key != Key::ToggleMode ==> c.after_key(key).mode == c.mode,
{
}

/// A press of the second button undoes a press of the third, unless the
/// pace was already the fastest.
pub proof fn lemma_faster_then_slower(c: Controller)
    requires
        c.wf(),
        c.speed > MIN_SPEED,
    ensures
        c.after_key(Key::Faster).after_key(Key::Slower) == c,
{
}

/// A press of the third button undoes a press of the second, unless the
/// pace was already the slowest.
pub proof fn lemma_slower_then_faster(c: Controller)
    requires
        c.wf(),
        c.speed < MAX_SPEED,
    ensures
        c.after_key(Key::Slower).after_key(Key::Faster) == c,
{
}

/// The pace saturates: at the slowest pace `Key::Slower` changes nothing,
/// at the fastest `Key::Faster` changes nothing, and two presses of either
/// from any well-formed board reach that end.
pub proof fn lemma_speed_saturates(c: Controller)
    requires
        c.wf(),
    ensures
        c.speed == MAX_SPEED ==> c.after_key(Key::Slower) == c,
        c.speed == MIN_SPEED ==> c.after_key(Key::Faster) == c,
        c.after_key(Key::Slower).after_key(Key::Slower).speed == MAX_SPEED,
        c.after_key(Key::Faster).after_key(Key::Faster).speed == MIN_SPEED,
{
}

/// After `n` undisturbed passes of the main loop each LED has made `n`
/// steps on its own, and mode and pace are unchanged.
pub proof fn lemma_passes_advance_each_led(c: Controller, n: nat)
    ensures
        c.after_passes(n).a == c.a.advanced(n),
        c.after_passes(n).b == c.b.advanced(n),
        c.after_passes(n).c == c.c.advanced(n),
        c.after_passes(n).d == c.d.advanced(n),
        c.after_passes(n).mode == c.mode,
        c.after_passes(n).speed == c.speed,
    decreases n,
{
    if n > 0 {
        lemma_passes_advance_each_led(c, (n - 1) as nat);
    }
}

/// Undisturbed passes of the main loop move every LED round its cycle by
/// the same amount, so the LEDs keep their spacing.
pub proof fn lemma_leds_keep_their_spacing(c: Controller, n: nat, led: Led)
    requires
        c.on_cycle(),
    ensures
        c.after_passes(n).on_cycle(),
        c.after_passes(n).led(led).phase() == (c.led(led).phase() + n) % (BREATH_PERIOD as int),
{
    lemma_passes_advance_each_led(c, n);
    lemma_advanced_phase(c.a, n);
    lemma_advanced_phase(c.b, n);
    lemma_advanced_phase(c.c, n);
    lemma_advanced_phase(c.d, n);
}

/// The board at power-up has every LED on its cycle, a quarter of the
/// curve apart from the next.
pub proof fn lemma_new_board_on_cycle(c: Controller)
    requires
        c.a == (LedState { index: 1, direction: Direction::Rising }),
        c.b == (LedState { index: 33, direction: Direction::Rising }),
        c.c == (LedState { index: 65, direction: Direction::Rising }),
        c.d == (LedState { index: 97, direction: Direction::Rising }),
    ensures
        c.on_cycle(),
        c.a.phase() == 0,
        c.b.phase() == 32,
        c.c.phase() == 64,
        c.d.phase() == 96,
{
}

/// With every LED on its cycle, a full breath's worth of undisturbed passes
/// of the main loop brings the whole board back to where it started.
pub proof fn lemma_board_period(c: Controller)
    requires
        c.on_cycle(),
    ensures
        c.after_passes(BREATH_PERIOD as nat) == c,
{
    lemma_passes_advance_each_led(c, BREATH_PERIOD as nat);
    lemma_breath_period(c.a);
    lemma_breath_period(c.b);
    lemma_breath_period(c.c);
    lemma_breath_period(c.d);
}

} // verus!
