//! One breathing LED: where it stands on the brightness curve, which way it
//! is moving, and the duty it asks for at each step.

use vstd::prelude::*;

use crate::table::{curve, lemma_curve_shape, level, BREATHING_TABLE, MAX_INDEX, MAX_LEVEL};

verus! {

/// Duty of a steady LED whose last step was on the way up.
pub const STEADY_LOW_DUTY: u16 = 1;

/// Duty of a steady LED whose last step was on the way down.
pub const STEADY_HIGH_DUTY: u16 = 480;

/// Number of steps in one full breath (up and back down).
pub const BREATH_PERIOD: usize = 254;

/// Which way an LED moves along the brightness curve.
#[derive(Clone, Copy, Debug, PartialEq, Eq, Structural)]
pub enum Direction {
    /// Towards the bright end of the curve.
    Rising,
    /// Towards the dark end of the curve.
    Falling,
}

/// How the LEDs are lit.
#[derive(Clone, Copy, Debug, PartialEq, Eq, Structural)]
pub enum Mode {
    /// Each LED follows the brightness curve.
    Breathing,
    /// Each LED shows a fixed duty that depends only on its direction.
    Steady,
}

impl Direction {
    /// The opposite direction.
    pub open spec fn flipped(self) -> Direction {
        match self {
            Direction::Rising => Direction::Falling,
            Direction::Falling => Direction::Rising,
        }
    }
}

impl Mode {
    /// The other mode.
    pub open spec fn toggled(self) -> Mode {
        match self {
            Mode::Breathing => Mode::Steady,
            Mode::Steady => Mode::Breathing,
        }
    }
}

/// Position and direction of one LED on the brightness curve.
#[derive(Clone, Copy, Debug, PartialEq, Eq, Structural)]
pub struct LedState {
    pub index: usize,
    pub direction: Direction,
}

impl LedState {
    /// The position lies on the curve.
    pub open spec fn wf(self) -> bool {
        self.index <= MAX_INDEX
    }

    /// The state after one step: move one place in the current direction,
    /// turning around (and moving one place back) at either end.
    pub open spec fn next(self) -> LedState {
        match self.direction {
            Direction::Rising => if self.index < MAX_INDEX {
                LedState { index: (self.index + 1) as usize, direction: Direction::Rising }
            } else {
                LedState { index: (self.index - 1) as usize, direction: Direction::Falling }
            },
            Direction::Falling => if self.index > 0 {
                LedState { index: (self.index - 1) as usize, direction: Direction::Falling }
            } else {
                LedState { index: (self.index + 1) as usize, direction: Direction::Rising }
            },
        }
    }

    /// The duty that the step out of this state asks for under `mode`.
    pub open spec fn duty(self, mode: Mode) -> u16 {
        match mode {
            Mode::Breathing => curve()[self.next().index as int],
            Mode::Steady => match self.direction {
                Direction::Rising => STEADY_LOW_DUTY,
                Direction::Falling => STEADY_HIGH_DUTY,
            },
        }
    }

    /// The same position, facing the other way.
    pub open spec fn reversed(self) -> LedState {
        LedState { index: self.index, direction: self.direction.flipped() }
    }

    /// The state after `n` steps.
    pub open spec fn advanced(self, n: nat) -> LedState
        decreases n,
    {
        if n == 0 {
            self
        } else {
            self.advanced((n - 1) as nat).next()
        }
    }

    /// The step out of this state turns the LED around.
    pub open spec fn bounces(self) -> bool {
        ||| self.direction == Direction::Rising && self.index == MAX_INDEX
        ||| self.direction == Direction::Falling && self.index == 0
    }

    /// The state lies on the cycle that the LED keeps going round: every
    /// position on the curve, except the dark end facing up and the bright
    /// end facing down (which a button press can produce, but a step never
    /// does).
    pub open spec fn on_cycle(self) -> bool {
        &&& self.wf()
        &&& !(self.direction == Direction::Rising && self.index == 0)
        &&& !(self.direction == Direction::Falling && self.index == MAX_INDEX)
    }

    /// Place of a cycle state within a breath: `0..127` on the way up,
    /// `127..254` on the way down.
    pub open spec fn phase(self) -> int {
        match self.direction {
            Direction::Rising => self.index - 1,
            Direction::Falling => 2 * MAX_INDEX - 1 - self.index,
        }
    }

    /// Makes one step: moves the LED and returns the PWM duty it now asks for.
    pub fn advance(&mut self, mode: Mode) -> (duty: u16)
        requires
            old(self).wf(),
        ensures
            *final(self) == old(self).next(),
            final(self).wf(),
            duty == old(self).duty(mode),
            old(self).direction == Direction::Rising && old(self).index < MAX_INDEX ==> (
            final(self).index == old(self).index + 1 && final(self).direction
                == Direction::Rising),
            old(self).direction == Direction::Rising && old(self).index == MAX_INDEX ==> (
            final(self).index == MAX_INDEX - 1 && final(self).direction
                == Direction::Falling),
            old(self).direction == Direction::Falling && old(self).index > 0 ==> (
            final(self).index + 1 == old(self).index && final(self).direction
                == Direction::Falling),
            old(self).direction == Direction::Falling && old(self).index == 0 ==> (
            final(self).index == 1 && final(self).direction == Direction::Rising),
            mode == Mode::Breathing ==> duty == BREATHING_TABLE[final(self).index as int],
            mode == Mode::Steady && old(self).direction == Direction::Rising ==> duty
                == STEADY_LOW_DUTY,
            mode == Mode::Steady && old(self).direction == Direction::Falling ==> duty
                == STEADY_HIGH_DUTY,
    {
        let rising = match self.direction {
            Direction::Rising => true,
            Direction::Falling => false,
        };
        if rising && self.index < MAX_INDEX {
            self.index = self.index + 1;
        } else if rising {
            self.direction = Direction::Falling;
            self.index = self.index - 1;
        } else if self.index > 0 {
            self.index = self.index - 1;
        } else {
            self.direction = Direction::Rising;
            self.index = self.index + 1;
        }
        match mode {
            Mode::Breathing => level(self.index),
            Mode::Steady => if rising {
                STEADY_LOW_DUTY
            } else {
                STEADY_HIGH_DUTY
            },
        }
    }

    /// Turns the LED around in place.
    pub fn reverse(&mut self)
        ensures
            *final(self) == old(self).reversed(),
    {
        self.direction = match self.direction {
            Direction::Rising => Direction::Falling,
            Direction::Falling => Direction::Rising,
        };
    }
}

/// A step keeps the LED on the curve and moves it by exactly one place.
pub proof fn lemma_step_moves_one(s: LedState)
    requires
        s.wf(),
    ensures
        s.next().wf(),
        s.next().index == s.index + 1 || s.next().index + 1 == s.index,
        s.bounces() <==> s.next().direction != s.direction,
{
}

/// A step that does not turn the LED around moves it one place in its
/// direction; a step at either end turns it around and moves it one place
/// back in from that end.
pub proof fn lemma_step_follows_direction(s: LedState)
    requires
        s.wf(),
    ensures
        s.direction == Direction::Rising && s.index < MAX_INDEX ==> s.next() == (LedState {
            index: (s.index + 1) as usize,
            direction: Direction::Rising,
        }),
        s.direction == Direction::Rising && s.index == MAX_INDEX ==> s.next() == (LedState {
            index: (MAX_INDEX - 1) as usize,
            direction: Direction::Falling,
        }),
        s.direction == Direction::Falling && s.index > 0 ==> s.next() == (LedState {
            index: (s.index - 1) as usize,
            direction: Direction::Falling,
        }),
        s.direction == Direction::Falling && s.index == 0 ==> s.next() == (LedState {
            index: 1,
            direction: Direction::Rising,
        }),
{
}

/// While breathing, the duty of a step is the curve's value at the place the
/// LED moves to, whichever way it moves and wherever it stands.
pub proof fn lemma_breathing_duty_is_curve_at_new_place(s: LedState)
    requires
        s.wf(),
    ensures
        s.duty(Mode::Breathing) == BREATHING_TABLE[s.next().index as int],
        s.direction == Direction::Rising && s.index < MAX_INDEX ==> s.duty(Mode::Breathing)
            == BREATHING_TABLE[s.index + 1],
        s.direction == Direction::Falling && s.index > 0 ==> s.duty(Mode::Breathing)
            == BREATHING_TABLE[s.index - 1],
        s.bounces() ==> s.duty(Mode::Breathing) == BREATHING_TABLE[s.next().index as int] && (
        s.next().index == 1 || s.next().index == MAX_INDEX - 1),
{
}

/// In steady mode the duty depends on the direction alone, at every place on
/// the curve: low while rising, high while falling.
pub proof fn lemma_steady_duty_by_direction(s: LedState, t: LedState)
    requires
        s.wf(),
        t.wf(),
    ensures
        s.direction == Direction::Rising ==> s.duty(Mode::Steady) == STEADY_LOW_DUTY,
        s.direction == Direction::Falling ==> s.duty(Mode::Steady) == STEADY_HIGH_DUTY,
        s.direction == t.direction ==> s.duty(Mode::Steady) == t.duty(Mode::Steady),
        s.direction != t.direction ==> s.duty(Mode::Steady) != t.duty(Mode::Steady),
{
}

/// Flipping a direction always changes it.
pub proof fn lemma_flip_changes(d: Direction)
    ensures
        d.flipped() != d,
        d.flipped().flipped() == d,
{
}

/// The duty of a step is bounded: at most `MAX_LEVEL` while breathing, and
/// one of the two steady duties otherwise.
pub proof fn lemma_duty_bounds(s: LedState, mode: Mode)
    requires
        s.wf(),
    ensures
        mode == Mode::Breathing ==> s.duty(mode) <= MAX_LEVEL,
        mode == Mode::Steady ==> (s.duty(mode) == STEADY_LOW_DUTY || s.duty(mode)
            == STEADY_HIGH_DUTY),
{
    lemma_curve_shape();
    assert(s.next().wf());
}

/// While breathing, a step on the way up never dims the LED and a step on
/// the way down never brightens it.
pub proof fn lemma_breathing_is_monotone(s: LedState)
    requires
        s.wf(),
        !s.bounces(),
    ensures
        s.direction == Direction::Rising ==> curve()[s.index as int] <= s.duty(Mode::Breathing),
        s.direction == Direction::Falling ==> s.duty(Mode::Breathing) <= curve()[s.index as int],
{
    lemma_curve_shape();
}

/// Reversing twice gives back the same state.
pub proof fn lemma_reverse_twice(s: LedState)
    ensures
        s.reversed().reversed() == s,
{
}

/// Reversing right after a step makes the next step retrace it, unless that
/// step turned the LED around.
pub proof fn lemma_reverse_retraces(s: LedState)
    requires
        s.wf(),
        !s.bounces(),
    ensures
        s.next().reversed().next().reversed() == s,
{
}

/// A step never leaves the cycle, and one step from any state on the curve
/// lands on it.
pub proof fn lemma_step_enters_cycle(s: LedState)
    requires
        s.wf(),
    ensures
        s.next().on_cycle(),
{
}

/// On the cycle, a step moves the phase on by one, wrapping after a full
/// breath.
pub proof fn lemma_step_phase(s: LedState)
    requires
        s.on_cycle(),
    ensures
        s.next().on_cycle(),
        0 <= s.phase() < BREATH_PERIOD,
        s.next().phase() == (s.phase() + 1) % (BREATH_PERIOD as int),
{
}

/// Two cycle states with the same phase are the same state.
pub proof fn lemma_phase_determines_state(s: LedState, t: LedState)
    requires
        s.on_cycle(),
        t.on_cycle(),
        s.phase() == t.phase(),
    ensures
        s == t,
{
}

/// After `n` steps from a cycle state, the LED is still on the cycle, `n`
/// places further round it.
pub proof fn lemma_advanced_phase(s: LedState, n: nat)
    requires
        s.on_cycle(),
    ensures
        s.advanced(n).on_cycle(),
        s.advanced(n).phase() == (s.phase() + n) % (BREATH_PERIOD as int),
    decreases n,
{
    let p = BREATH_PERIOD as int;
    lemma_step_phase(s);
    if n == 0 {
        assert(s.phase() % p == s.phase());
    } else {
        let m = (n - 1) as nat;
        lemma_advanced_phase(s, m);
        lemma_step_phase(s.advanced(m));
        vstd::arithmetic::div_mod::lemma_add_mod_noop(s.phase() + m, 1, p);
        assert(1int % p == 1);
    }
}

/// A full breath brings an LED on the cycle back to where it started.
pub proof fn lemma_breath_period(s: LedState)
    requires
        s.on_cycle(),
    ensures
        s.advanced(BREATH_PERIOD as nat) == s,
{
    lemma_advanced_phase(s, BREATH_PERIOD as nat);
    lemma_step_phase(s);
    vstd::arithmetic::div_mod::lemma_add_mod_noop(s.phase(), BREATH_PERIOD as int, BREATH_PERIOD as int);
    assert((BREATH_PERIOD as int) % (BREATH_PERIOD as int) == 0);
    assert(s.phase() % (BREATH_PERIOD as int) == s.phase());
    lemma_phase_determines_state(s.advanced(BREATH_PERIOD as nat), s);
}

/// No shorter run of steps brings an LED on the cycle back to where it
/// started.
pub proof fn lemma_breath_period_is_least(s: LedState, n: nat)
    requires
        s.on_cycle(),
        0 < n < BREATH_PERIOD,
    ensures
        s.advanced(n) != s,
{
    lemma_advanced_phase(s, n);
    lemma_step_phase(s);
    let p = BREATH_PERIOD as int;
    if s.phase() + n < p {
        assert((s.phase() + n) % p == s.phase() + n) by {
            vstd::arithmetic::div_mod::lemma_small_mod((s.phase() + n) as nat, p as nat);
        }
    } else {
        assert((s.phase() + n) % p == s.phase() + n - p) by {
            vstd::arithmetic::div_mod::lemma_mod_add_multiples_vanish(s.phase() + n - p, p);
            vstd::arithmetic::div_mod::lemma_small_mod((s.phase() + n - p) as nat, p as nat);
        }
    }
}

} // verus!
