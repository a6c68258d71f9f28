use invaders_core::buttons::button::debouncer::Debouncer;
use invaders_core::buttons::button::debouncer::DEBOUNCER_TIMER_US;
use invaders_core::buttons::button::read_state;
use invaders_core::buttons::button::Button;
use invaders_core::buttons::button::ButtonState;
use invaders_core::buttons::button::BUTTON_TIMER_US;
use invaders_core::buttons::ButtonAction;
use invaders_core::buttons::Buttons;
use invaders_core::buttons::PRESS_AND_HOLD_TIMEOUT_US;
use invaders_core::wrapping_timer::WrappingTimer;

const PRESSED: ButtonState = ButtonState::Pressed;
const NOT_PRESSED: ButtonState = ButtonState::NotPressed;

/// Feeds the pin readings of `ticks` polls, one millisecond apart, and returns
/// the actions with the number of the poll that yielded each.
fn poll(
    buttons: &mut Buttons,
    clock_us: &mut u32,
    ticks: u32,
    pin_is_low: [bool; 2],
    poll_number: &mut u32,
) -> Vec<(u32, ButtonAction)> {
    let readings = [Ok(pin_is_low[0]), Ok(pin_is_low[1])];
    let mut actions = Vec::new();
    for _ in 0..ticks {
        *clock_us = clock_us.wrapping_add(BUTTON_TIMER_US);
        *poll_number += 1;
        if let Some(action) = buttons.update(*clock_us, readings) {
            actions.push((*poll_number, action));
        }
    }
    actions
}

#[test]
fn timer_periods() {
    assert_eq!(DEBOUNCER_TIMER_US, 1_000);
    assert_eq!(BUTTON_TIMER_US, 1_000);
    assert_eq!(PRESS_AND_HOLD_TIMEOUT_US, 100_000);
}

#[test]
fn elapsed_time_spans_a_wrap_of_the_counter() {
    let mut timer = WrappingTimer::new();
    timer.capture(5);
    assert_eq!(timer.curr_time_us(), 5);
    assert_eq!(timer.elapsed_us(4294967290), 11);
}

#[test]
fn elapsed_time_without_a_wrap() {
    let mut timer = WrappingTimer::new();
    assert_eq!(timer.curr_time_us(), 0);
    assert_eq!(timer.elapsed_us(0), 0);
    timer.capture(100_250);
    assert_eq!(timer.elapsed_us(250), 100_000);
    assert_eq!(timer.elapsed_us(100_250), 0);
    timer.capture(u32::MAX);
    assert_eq!(timer.elapsed_us(0), u32::MAX);
    // A timestamp that lies "after" the reading is taken to lie almost a
    // whole turn of the counter before it.
    timer.capture(0);
    assert_eq!(timer.elapsed_us(1), u32::MAX);
}

#[test]
fn is_pressed_tells_the_states_apart() {
    assert!(PRESSED.is_pressed());
    assert!(!NOT_PRESSED.is_pressed());
}

#[test]
fn a_low_pin_is_a_pressed_button() {
    assert_eq!(read_state(Ok(true)), PRESSED);
    assert_eq!(read_state(Ok(false)), NOT_PRESSED);
}

#[test]
fn left_right_by_button_number() {
    assert_eq!(ButtonAction::left_right(0), ButtonAction::Left);
    assert_eq!(ButtonAction::left_right(1), ButtonAction::Right);
}

#[test]
fn debouncer_reports_on_the_fifth_sample_in_a_row() {
    let mut debouncer = Debouncer::new(NOT_PRESSED);
    for _ in 0..4 {
        assert_eq!(debouncer.update(PRESSED), None);
    }
    assert_eq!(debouncer.update(PRESSED), Some(PRESSED));
    // The new state is committed: more of the same changes nothing.
    for _ in 0..10 {
        assert_eq!(debouncer.update(PRESSED), None);
    }
    for _ in 0..4 {
        assert_eq!(debouncer.update(NOT_PRESSED), None);
    }
    assert_eq!(debouncer.update(NOT_PRESSED), Some(NOT_PRESSED));
}

#[test]
fn debouncer_starts_counting_again_after_a_matching_sample() {
    let mut debouncer = Debouncer::new(NOT_PRESSED);
    let mut reports = Vec::new();
    let samples = [
        PRESSED, PRESSED, PRESSED, PRESSED, NOT_PRESSED, PRESSED, PRESSED, PRESSED, PRESSED,
        PRESSED,
    ];
    for sample in samples {
        reports.push(debouncer.update(sample));
    }
    let mut expected = vec![None; 9];
    expected.push(Some(PRESSED));
    assert_eq!(reports, expected);
}

#[test]
fn debouncer_ignores_a_bouncing_contact() {
    let mut debouncer = Debouncer::new(PRESSED);
    for round in 0..50 {
        let sample = if round % 5 == 4 { PRESSED } else { NOT_PRESSED };
        assert_eq!(debouncer.update(sample), None);
    }
}

#[test]
fn button_follows_its_debouncer() {
    let mut button = Button::new(Ok(false));
    assert_eq!(button.state(), NOT_PRESSED);
    for _ in 0..4 {
        assert_eq!(button.update(Ok(true)), None);
        assert_eq!(button.state(), NOT_PRESSED);
    }
    assert_eq!(button.update(Ok(true)), Some(PRESSED));
    assert_eq!(button.state(), PRESSED);
    for _ in 0..4 {
        assert_eq!(button.update(Ok(false)), None);
        assert_eq!(button.state(), PRESSED);
    }
    assert_eq!(button.update(Ok(false)), Some(NOT_PRESSED));
    assert_eq!(button.state(), NOT_PRESSED);
}

#[test]
fn button_starts_in_the_state_that_was_read() {
    assert_eq!(Button::new(Ok(true)).state(), PRESSED);
    assert_eq!(Button::new(Ok(false)).state(), NOT_PRESSED);
}

#[test]
fn forced_release_hides_the_physical_release() {
    let mut button = Button::new(Ok(true));
    button.force_state_change(NOT_PRESSED);
    assert_eq!(button.state(), NOT_PRESSED);
    // The debouncer still holds the button to be pressed, so the readings
    // of a pressed button change nothing.
    for _ in 0..10 {
        assert_eq!(button.update(Ok(true)), None);
    }
    // The release is the debouncer's news, but not the button's.
    for _ in 0..10 {
        assert_eq!(button.update(Ok(false)), None);
    }
    assert_eq!(button.state(), NOT_PRESSED);
    // The next press is reported as usual.
    for _ in 0..4 {
        assert_eq!(button.update(Ok(true)), None);
    }
    assert_eq!(button.update(Ok(true)), Some(PRESSED));
}

#[test]
fn forced_press_is_reported_as_released_later() {
    let mut button = Button::new(Ok(false));
    button.force_state_change(PRESSED);
    assert_eq!(button.state(), PRESSED);
    for _ in 0..10 {
        assert_eq!(button.update(Ok(false)), None);
    }
    assert_eq!(button.state(), PRESSED);
}

#[test]
fn holding_one_button_moves_once_at_the_timeout() {
    let mut buttons = Buttons::new(Ok(false), Ok(false));
    let mut clock_us = 0;
    let mut poll_number = 0;
    // The press is committed at poll 5, at 5 ms; 100 ms later it times out.
    let held = poll(&mut buttons, &mut clock_us, 300, [true, false], &mut poll_number);
    assert_eq!(held, vec![(105, ButtonAction::Left)]);
    // The release that follows is no news.
    let released = poll(&mut buttons, &mut clock_us, 50, [false, false], &mut poll_number);
    assert_eq!(released, vec![]);
}

#[test]
fn holding_the_other_button_moves_right() {
    let mut buttons = Buttons::new(Ok(false), Ok(false));
    let mut clock_us = 0;
    let mut poll_number = 0;
    let held = poll(&mut buttons, &mut clock_us, 104, [false, true], &mut poll_number);
    assert_eq!(held, vec![]);
    let held = poll(&mut buttons, &mut clock_us, 1, [false, true], &mut poll_number);
    assert_eq!(held, vec![(105, ButtonAction::Right)]);
}

#[test]
fn pressing_both_buttons_fires_once() {
    let mut buttons = Buttons::new(Ok(false), Ok(false));
    let mut clock_us = 0;
    let mut poll_number = 0;
    let first = poll(&mut buttons, &mut clock_us, 10, [true, false], &mut poll_number);
    assert_eq!(first, vec![]);
    // The second press is committed at its fifth reading.
    let both = poll(&mut buttons, &mut clock_us, 300, [true, true], &mut poll_number);
    assert_eq!(both, vec![(15, ButtonAction::Fire)]);
    // Both buttons count as released: letting go of them, together or one
    // after the other, is no news.
    let one = poll(&mut buttons, &mut clock_us, 20, [false, true], &mut poll_number);
    assert_eq!(one, vec![]);
    let none = poll(&mut buttons, &mut clock_us, 200, [false, false], &mut poll_number);
    assert_eq!(none, vec![]);
}

#[test]
fn pressing_both_buttons_at_once_fires_once() {
    let mut buttons = Buttons::new(Ok(false), Ok(false));
    let mut clock_us = 0;
    let mut poll_number = 0;
    let both = poll(&mut buttons, &mut clock_us, 300, [true, true], &mut poll_number);
    assert_eq!(both, vec![(5, ButtonAction::Fire)]);
    let none = poll(&mut buttons, &mut clock_us, 200, [false, false], &mut poll_number);
    assert_eq!(none, vec![]);
}

#[test]
fn quick_press_moves_at_the_release() {
    let mut buttons = Buttons::new(Ok(false), Ok(false));
    let mut clock_us = 0;
    let mut poll_number = 0;
    let pressed = poll(&mut buttons, &mut clock_us, 20, [false, true], &mut poll_number);
    assert_eq!(pressed, vec![]);
    // The release is committed at its fifth reading.
    let released = poll(&mut buttons, &mut clock_us, 200, [false, false], &mut poll_number);
    assert_eq!(released, vec![(25, ButtonAction::Right)]);
}

#[test]
fn quick_press_of_the_left_button_moves_left() {
    let mut buttons = Buttons::new(Ok(false), Ok(false));
    let mut clock_us = 0;
    let mut poll_number = 0;
    let pressed = poll(&mut buttons, &mut clock_us, 5, [true, false], &mut poll_number);
    assert_eq!(pressed, vec![]);
    let released = poll(&mut buttons, &mut clock_us, 5, [false, false], &mut poll_number);
    assert_eq!(released, vec![(10, ButtonAction::Left)]);
}

#[test]
fn second_press_after_the_timeout_does_not_fire() {
    let mut buttons = Buttons::new(Ok(false), Ok(false));
    let mut clock_us = 0;
    let mut poll_number = 0;
    let held = poll(&mut buttons, &mut clock_us, 110, [true, false], &mut poll_number);
    assert_eq!(held, vec![(105, ButtonAction::Left)]);
    // Button 0 counts as released since the timeout, so the press of button 1
    // is a press alone: it moves right when it times out in turn.
    let both = poll(&mut buttons, &mut clock_us, 200, [true, true], &mut poll_number);
    assert_eq!(both, vec![(215, ButtonAction::Right)]);
}

#[test]
fn timeout_is_measured_across_a_wrap_of_the_clock() {
    let mut buttons = Buttons::new(Ok(false), Ok(false));
    let mut clock_us = u32::MAX - 50_000;
    let mut poll_number = 0;
    let held = poll(&mut buttons, &mut clock_us, 300, [true, false], &mut poll_number);
    assert_eq!(held, vec![(105, ButtonAction::Left)]);
}

#[test]
fn bounces_yield_no_action() {
    let mut buttons = Buttons::new(Ok(false), Ok(false));
    let mut clock_us = 0;
    let mut poll_number = 0;
    for _ in 0..20 {
        let bounce = poll(&mut buttons, &mut clock_us, 4, [true, true], &mut poll_number);
        assert_eq!(bounce, vec![]);
        let rest = poll(&mut buttons, &mut clock_us, 1, [false, false], &mut poll_number);
        assert_eq!(rest, vec![]);
    }
}

#[test]
fn buttons_held_at_the_start_count_as_released() {
    let mut buttons = Buttons::new(Ok(true), Ok(true));
    let mut clock_us = 0;
    let mut poll_number = 0;
    // No press is noted, so nothing times out.
    let held = poll(&mut buttons, &mut clock_us, 300, [true, true], &mut poll_number);
    assert_eq!(held, vec![]);
    // And the releases are no news.
    let released = poll(&mut buttons, &mut clock_us, 50, [false, false], &mut poll_number);
    assert_eq!(released, vec![]);
    // From then on the buttons work as usual.
    let pressed = poll(&mut buttons, &mut clock_us, 10, [true, false], &mut poll_number);
    assert_eq!(pressed, vec![]);
    let released = poll(&mut buttons, &mut clock_us, 10, [false, false], &mut poll_number);
    assert_eq!(released, vec![(365, ButtonAction::Left)]);
}

#[test]
fn readings_are_left_aside_when_a_hold_times_out() {
    let mut buttons = Buttons::new(Ok(false), Ok(false));
    let mut clock_us = 0;
    let mut poll_number = 0;
    let held = poll(&mut buttons, &mut clock_us, 100, [true, false], &mut poll_number);
    assert_eq!(held, vec![]);
    // Button 1 is read low from poll 101 on. Its fifth low reading comes with
    // poll 105, at which button 0 times out: the press is noted one poll
    // later, and times out 100 ms after that.
    let both = poll(&mut buttons, &mut clock_us, 200, [true, true], &mut poll_number);
    assert_eq!(both, vec![(105, ButtonAction::Left), (206, ButtonAction::Right)]);
}
