use breathing_led::controller::{waits_for, Controller, Key, Led, Step, MAX_SPEED, MIN_SPEED};
use breathing_led::led::{Direction, LedState, Mode, BREATH_PERIOD, STEADY_HIGH_DUTY, STEADY_LOW_DUTY};
use breathing_led::table::{level, BREATHING_TABLE, MAX_INDEX, MAX_LEVEL, TABLE_LEN};

fn rising(index: usize) -> LedState {
    LedState { index, direction: Direction::Rising }
}

fn falling(index: usize) -> LedState {
    LedState { index, direction: Direction::Falling }
}

#[test]
fn new_board_starts_spread_out_rising_breathing_fast() {
    let c = Controller::new();
    assert_eq!(c.a, rising(1));
    assert_eq!(c.b, rising(33));
    assert_eq!(c.c, rising(65));
    assert_eq!(c.d, rising(97));
    assert_eq!(c.mode, Mode::Breathing);
    assert_eq!(c.speed, 1);
}

#[test]
fn first_steps_follow_the_curve() {
    let mut c = Controller::new();
    assert_eq!(c.step_led(Led::A), Step { duty: 0, waits: 1 });
    assert_eq!(c.step_led(Led::B), Step { duty: 29, waits: 1 });
    assert_eq!(c.step_led(Led::C), Step { duty: 145, waits: 1 });
    assert_eq!(c.step_led(Led::D), Step { duty: 368, waits: 1 });
    assert_eq!(c.a, rising(2));
    assert_eq!(c.b, rising(34));
    assert_eq!(c.c, rising(66));
    assert_eq!(c.d, rising(98));
}

#[test]
fn step_touches_only_its_led() {
    let mut c = Controller::new();
    let before = c;
    c.step_led(Led::C);
    assert_eq!(c.a, before.a);
    assert_eq!(c.b, before.b);
    assert_eq!(c.d, before.d);
    assert_eq!(c.c, rising(66));
    assert_eq!(c.mode, before.mode);
    assert_eq!(c.speed, before.speed);
}

#[test]
fn rising_led_turns_around_at_the_bright_end() {
    let mut s = rising(126);
    assert_eq!(s.advance(Mode::Breathing), 500);
    assert_eq!(s, rising(127));
    assert_eq!(s.advance(Mode::Breathing), 500);
    assert_eq!(s, falling(126));
    assert_eq!(s.advance(Mode::Breathing), 500);
    assert_eq!(s, falling(125));
    assert_eq!(s.advance(Mode::Breathing), 498);
    assert_eq!(s, falling(124));
}

#[test]
fn falling_led_turns_around_at_the_dark_end() {
    let mut s = falling(1);
    assert_eq!(s.advance(Mode::Breathing), 0);
    assert_eq!(s, falling(0));
    assert_eq!(s.advance(Mode::Breathing), 0);
    assert_eq!(s, rising(1));
}

#[test]
fn steady_mode_duty_follows_direction_before_the_step() {
    let mut up = rising(50);
    assert_eq!(up.advance(Mode::Steady), STEADY_LOW_DUTY);
    assert_eq!(up, rising(51));
    let mut top = rising(127);
    assert_eq!(top.advance(Mode::Steady), 1);
    assert_eq!(top, falling(126));
    let mut down = falling(50);
    assert_eq!(down.advance(Mode::Steady), STEADY_HIGH_DUTY);
    let mut bottom = falling(0);
    assert_eq!(bottom.advance(Mode::Steady), 480);
    assert_eq!(bottom, rising(1));
}

#[test]
fn mode_key_switches_output_and_back() {
    let mut c = Controller::new();
    c.press(Key::ToggleMode);
    assert_eq!(c.mode, Mode::Steady);
    assert_eq!(c.step_led(Led::A), Step { duty: 1, waits: 1 });
    c.press(Key::Reverse);
    assert_eq!(c.step_led(Led::A), Step { duty: 480, waits: 1 });
    c.press(Key::ToggleMode);
    assert_eq!(c.mode, Mode::Breathing);
}

#[test]
fn mode_key_twice_changes_nothing() {
    let mut c = Controller::new();
    c.step_led(Led::B);
    let before = c;
    c.press(Key::ToggleMode);
    assert_ne!(c, before);
    c.press(Key::ToggleMode);
    assert_eq!(c, before);
}

#[test]
fn reverse_key_turns_every_led_around() {
    let mut c = Controller::new();
    c.press(Key::Reverse);
    assert_eq!(c.a, falling(1));
    assert_eq!(c.b, falling(33));
    assert_eq!(c.c, falling(65));
    assert_eq!(c.d, falling(97));
    assert_eq!(c.step_led(Led::A), Step { duty: 0, waits: 1 });
    assert_eq!(c.a, falling(0));
    assert_eq!(c.step_led(Led::D), Step { duty: 352, waits: 1 });
    assert_eq!(c.d, falling(96));
}

#[test]
fn reverse_key_twice_changes_nothing() {
    let mut c = Controller::new();
    c.step_led(Led::A);
    let before = c;
    c.press(Key::Reverse);
    c.press(Key::Reverse);
    assert_eq!(c, before);
}

#[test]
fn swaps_turn_one_led_each() {
    let mut c = Controller::new();
    c.swapa();
    assert_eq!(c.a, falling(1));
    assert_eq!(c.b, rising(33));
    c.swapb();
    assert_eq!(c.b, falling(33));
    c.swapc();
    assert_eq!(c.c, falling(65));
    assert_eq!(c.d, rising(97));
    c.swapd();
    assert_eq!(c.d, falling(97));
    c.swapa();
    assert_eq!(c.a, rising(1));
}

#[test]
fn reverse_all_equals_the_four_swaps() {
    let mut c = Controller::new();
    c.step_led(Led::A);
    let mut d = c;
    c.reverse_all();
    d.swapa();
    d.swapb();
    d.swapc();
    d.swapd();
    assert_eq!(c, d);
}

#[test]
fn slower_key_saturates_at_three() {
    let mut c = Controller::new();
    c.press(Key::Slower);
    assert_eq!(c.speed, 2);
    assert_eq!(c.step_led(Led::A).waits, 2);
    c.press(Key::Slower);
    assert_eq!(c.speed, MAX_SPEED);
    c.press(Key::Slower);
    c.press(Key::Slower);
    assert_eq!(c.speed, 3);
    assert_eq!(c.step_led(Led::A).waits, 3);
}

#[test]
fn faster_key_saturates_at_one() {
    let mut c = Controller::new();
    c.press(Key::Faster);
    assert_eq!(c.speed, MIN_SPEED);
    c.slow_down();
    c.slow_down();
    c.speed_up();
    assert_eq!(c.speed, 2);
    c.speed_up();
    c.speed_up();
    assert_eq!(c.speed, 1);
}

#[test]
fn faster_then_slower_restores_pace_except_at_the_fastest() {
    let mut c = Controller::new();
    c.press(Key::Slower);
    let before = c;
    c.press(Key::Faster);
    c.press(Key::Slower);
    assert_eq!(c, before);

    let mut fastest = Controller::new();
    fastest.press(Key::Faster);
    fastest.press(Key::Slower);
    assert_eq!(fastest.speed, 2);
}

#[test]
fn slower_then_faster_restores_pace_except_at_the_slowest() {
    let mut c = Controller::new();
    let before = c;
    c.press(Key::Slower);
    c.press(Key::Faster);
    assert_eq!(c, before);

    let mut slowest = Controller::new();
    slowest.speed = 3;
    slowest.press(Key::Slower);
    slowest.press(Key::Faster);
    assert_eq!(slowest.speed, 2);
}

#[test]
fn wait_counts() {
    assert_eq!(waits_for(0), 0);
    assert_eq!(waits_for(1), 1);
    assert_eq!(waits_for(2), 2);
    assert_eq!(waits_for(3), 3);
    assert_eq!(waits_for(4), 0);
    assert_eq!(waits_for(255), 0);
}

#[test]
fn a_full_breath_returns_to_the_start() {
    for start in [rising(1), rising(64), rising(127), falling(126), falling(0), falling(40)] {
        let mut s = start;
        for n in 1..=BREATH_PERIOD {
            s.advance(Mode::Breathing);
            if n < BREATH_PERIOD {
                assert_ne!(s, start);
            }
        }
        assert_eq!(s, start);
    }
}

#[test]
fn states_off_the_cycle_do_not_come_back() {
    for start in [rising(0), falling(127)] {
        let mut s = start;
        s.advance(Mode::Breathing);
        let entered = s;
        for _ in 0..BREATH_PERIOD {
            s.advance(Mode::Breathing);
            assert_ne!(s, start);
        }
        assert_eq!(s, entered);
    }
}

#[test]
fn reversing_after_a_step_retraces_it() {
    for start in [rising(5), falling(5), rising(0), falling(127), rising(126), falling(1)] {
        let mut s = start;
        s.advance(Mode::Breathing);
        s.reverse();
        s.advance(Mode::Breathing);
        s.reverse();
        assert_eq!(s, start);
    }
    // A step that turns the LED around is not retraced.
    let mut top = rising(127);
    top.advance(Mode::Breathing);
    top.reverse();
    top.advance(Mode::Breathing);
    top.reverse();
    assert_eq!(top, falling(127));
}

#[test]
fn every_step_moves_by_one_and_stays_on_the_curve() {
    let mut s = rising(1);
    for _ in 0..600 {
        let before = s;
        s.advance(Mode::Breathing);
        assert!(s.index <= MAX_INDEX);
        assert!(s.index + 1 == before.index || before.index + 1 == s.index);
    }
}

#[test]
fn curve_is_bounded_rising_and_read_by_level() {
    assert_eq!(BREATHING_TABLE.len(), TABLE_LEN);
    assert_eq!(level(0), 0);
    assert_eq!(level(13), 3);
    assert_eq!(level(64), 133);
    assert_eq!(level(MAX_INDEX), MAX_LEVEL);
    for i in 0..TABLE_LEN {
        assert_eq!(level(i), BREATHING_TABLE[i]);
        assert!(level(i) <= MAX_LEVEL);
        if i > 0 {
            assert!(level(i - 1) <= level(i));
        }
    }
}

#[test]
fn breathing_duty_never_exceeds_the_top_level() {
    let mut c = Controller::new();
    for _ in 0..300 {
        for led in [Led::A, Led::B, Led::C, Led::D] {
            assert!(c.step_led(led).duty <= MAX_LEVEL);
        }
    }
}

#[test]
fn a_full_breath_of_passes_restores_the_board() {
    let start = Controller::new();
    let mut c = start;
    for n in 1..=BREATH_PERIOD {
        for led in [Led::A, Led::B, Led::C, Led::D] {
            c.step_led(led);
        }
        if n < BREATH_PERIOD {
            assert_ne!(c, start);
        }
    }
    assert_eq!(c, start);
}

#[test]
fn leds_stay_a_quarter_curve_apart() {
    // Phase of a state on the cycle: 0..127 rising, 127..254 falling.
    fn phase(s: LedState) -> usize {
        match s.direction {
            Direction::Rising => s.index - 1,
            Direction::Falling => 2 * MAX_INDEX - 1 - s.index,
        }
    }
    let mut c = Controller::new();
    for _ in 0..500 {
        for led in [Led::A, Led::B, Led::C, Led::D] {
            c.step_led(led);
        }
        let pa = phase(c.a);
        assert_eq!(phase(c.b), (pa + 32) % BREATH_PERIOD);
        assert_eq!(phase(c.c), (pa + 64) % BREATH_PERIOD);
        assert_eq!(phase(c.d), (pa + 96) % BREATH_PERIOD);
    }
}
