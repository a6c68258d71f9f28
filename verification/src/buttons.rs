use self::button::reading_is_low;
use self::button::Button;
use self::button::ButtonState;
use self::button::ButtonView;
use crate::wrapping_timer::wrapping_elapsed;
use crate::wrapping_timer::WrappingTimer;
use void::Void;
use vstd::prelude::*;

pub mod button;

verus! {

/// When the user presses a button, how long do we wait to see if they press the
/// other button as well? In microseconds.
pub const PRESS_AND_HOLD_TIMEOUT_US: u32 = 100_000;  // 100,000 us = 100 ms

/// Input handling for the Space Invaders game.
///
/// Press A or B to move left or right. Press both at once to fire.
pub struct Buttons {
    buttons: [Button; 2],
    time_source: WrappingTimer,
    /// If either button is held, this is the timestamp of when it was
    /// initially pressed. At most one button is held at a time.
    held_since: Option<u32>,
}

/// What the player asks for.
#[derive(Debug, Clone, Copy, PartialEq, Eq, Structural)]
pub enum ButtonAction {
    Left,
    Right,
    Fire,
}

/// What the input handling remembers between two updates.
pub struct ButtonsView {
    /// The two buttons: number 0 moves left, number 1 moves right.
    pub buttons: Seq<ButtonView>,
    /// The last reading of the clock.
    pub now: nat,
    /// The reading of the clock at which the button that is held was pressed.
    pub held_since: Option<nat>,
}

impl ButtonsView {
    /// Whether button number `i` is held to be pressed.
    pub open spec fn is_pressed(self, i: int) -> bool {
        self.buttons[i].is_pressed()
    }

    /// Button number `i` is held to be pressed only where its debouncer has
    /// found it pressed: the state is forced only to release it.
    pub open spec fn press_is_real(self, i: int) -> bool {
        self.is_pressed(i) ==> self.buttons[i].debouncer.state == ButtonState::Pressed
    }

    /// What holds between two updates: the two buttons are never both held
    /// to be pressed, and the time of the press is kept exactly while one of
    /// them is.
    pub open spec fn wf(self) -> bool {
        &&& self.buttons.len() == 2
        &&& self.buttons[0].wf()
        &&& self.buttons[1].wf()
        &&& self.press_is_real(0)
        &&& self.press_is_real(1)
        &&& !(self.is_pressed(0) && self.is_pressed(1))
        &&& self.held_since is Some <==> self.is_pressed(0) || self.is_pressed(1)
    }

    /// A button has been held for as long as we wait for the other one.
    pub open spec fn timed_out(self) -> bool {
        match self.held_since {
            Some(t) => wrapping_elapsed(self.now as int, t as int) >= PRESS_AND_HOLD_TIMEOUT_US,
            None => false,
        }
    }

    /// The button that is held: the first one that is pressed.
    pub open spec fn held_button(self) -> int {
        if self.is_pressed(0) {
            0
        } else {
            1
        }
    }

    /// Button number `i` forced into `new_state`.
    pub open spec fn forced(self, i: int, new_state: ButtonState) -> ButtonsView {
        ButtonsView { buttons: self.buttons.update(i, self.buttons[i].forced(new_state)), ..self }
    }

    /// The first part of an update: a button that has been held long enough
    /// is released, and its movement is the action.
    pub open spec fn check_timeout(self) -> (ButtonsView, Option<ButtonAction>) {
        if self.timed_out() {
            (
                ButtonsView {
                    held_since: None,
                    ..self.forced(self.held_button(), ButtonState::NotPressed)
                },
                Some(ButtonAction::spec_left_right(self.held_button())),
            )
        } else {
            (self, None)
        }
    }

    /// The part of an update that looks at button number `i`, whose pin was
    /// just read. A press while the other button is held fires, and both
    /// buttons count as released; a press alone is only noted, with its time;
    /// a release is the button's movement.
    pub open spec fn update_button(self, i: int, pin_is_low: bool) -> (
        ButtonsView,
        Option<ButtonAction>,
    ) {
        let polled = ButtonsView {
            buttons: self.buttons.update(i, self.buttons[i].step(pin_is_low)),
            ..self
        };
        match self.buttons[i].change(pin_is_low) {
            None => (polled, None),
            Some(ButtonState::Pressed) => {
                if polled.is_pressed(1 - i) {
                    (
                        ButtonsView {
                            held_since: None,
                            ..polled.forced(i, ButtonState::NotPressed).forced(
                                1 - i,
                                ButtonState::NotPressed,
                            )
                        },
                        Some(ButtonAction::Fire),
                    )
                } else {
                    (ButtonsView { held_since: Some(polled.now), ..polled }, None)
                }
            },
            Some(ButtonState::NotPressed) => (
                ButtonsView { held_since: None, ..polled },
                Some(ButtonAction::spec_left_right(i)),
            ),
        }
    }

    /// One update, at the clock reading `now` and with a new reading of each
    /// button's pin: the buttons after it, and the action that it yields.
    /// Where the timeout yields the action, the buttons are not looked at.
    pub open spec fn update(self, now: nat, pin_is_low: Seq<bool>) -> (
        ButtonsView,
        Option<ButtonAction>,
    ) {
        let clocked = ButtonsView { now, ..self };
        let (released, timeout) = clocked.check_timeout();
        if timeout is Some {
            (released, timeout)
        } else {
            let (first, left) = released.update_button(0, pin_is_low[0]);
            let (second, right) = first.update_button(1, pin_is_low[1]);
            (
                second,
                if left is Some {
                    left
                } else {
                    right
                },
            )
        }
    }
}

/// What one call of `update` is handed: a reading of the clock and the level
/// of each button's pin.
pub struct Poll {
    pub now: nat,
    pub pin_0_is_low: bool,
    pub pin_1_is_low: bool,
}

impl Poll {
    /// The levels of the two pins, by the number of the button.
    pub open spec fn pin_is_low(self) -> Seq<bool> {
        seq![self.pin_0_is_low, self.pin_1_is_low]
    }
}

/// The time from poll number `since` to poll number `k`, as the clock gives
/// it.
pub open spec fn elapsed_at(polls: Seq<Poll>, since: int, k: int) -> int {
    wrapping_elapsed(polls[k].now as int, polls[since].now as int)
}

impl ButtonsView {
    /// No button is held to be pressed.
    pub open spec fn idle(self) -> bool {
        !self.is_pressed(0) && !self.is_pressed(1)
    }

    /// The buttons after all of `polls`, first to last.
    pub open spec fn run(self, polls: Seq<Poll>) -> ButtonsView
        decreases polls.len(),
    {
        if polls.len() == 0 {
            self
        } else {
            self.run(polls.drop_last()).update(polls.last().now, polls.last().pin_is_low()).0
        }
    }

    /// The buttons as they stand when poll number `k` of `polls` comes.
    pub open spec fn before(self, polls: Seq<Poll>, k: int) -> ButtonsView {
        self.run(polls.take(k))
    }

    /// The action that poll number `k` of `polls` yields.
    pub open spec fn action_at(self, polls: Seq<Poll>, k: int) -> Option<ButtonAction> {
        self.before(polls, k).update(polls[k].now, polls[k].pin_is_low()).1
    }

    /// The change of state that poll number `k` of `polls` finds of button
    /// number `i`, as the button stands when the poll comes: a press or a
    /// release that its debouncer commits.
    pub open spec fn change_at(self, polls: Seq<Poll>, k: int, i: int) -> Option<ButtonState> {
        self.before(polls, k).buttons[i].change(polls[k].pin_is_low()[i])
    }
}

impl View for Buttons {
    type V = ButtonsView;

    closed spec fn view(&self) -> ButtonsView {
        ButtonsView {
            buttons: seq![self.buttons[0]@, self.buttons[1]@],
            now: self.time_source@,
            held_since: match self.held_since {
                Some(t) => Some(t as nat),
                None => None,
            },
        }
    }
}

impl Buttons {
    /// The buttons, with the first reading of each one's pin. Both start
    /// "not-pressed", whatever the readings.
    pub fn new(a: Result<bool, Void>, b: Result<bool, Void>) -> (buttons: Self)
        ensures
            buttons@.wf(),
            buttons@.buttons[0] == Button::new_view(reading_is_low(a)).forced(
                ButtonState::NotPressed,
            ),
            buttons@.buttons[1] == Button::new_view(reading_is_low(b)).forced(
                ButtonState::NotPressed,
            ),
            buttons@.now == 0,
            buttons@.held_since is None,
    {
        let ghost a_is_low = reading_is_low(a);
        let ghost b_is_low = reading_is_low(b);
        let mut this = Self {
            buttons: [Button::new(a), Button::new(b)],
            time_source: WrappingTimer::new(),
            held_since: None,
        };

        // The `update` logic is simpler if we can assume both buttons start
        // "not-pressed".
        for i in 0..2usize
            invariant
                this.held_since is None,
                this.time_source@ == 0,
                forall|j: int|
                    0 <= j < 2 ==> #[trigger] this.buttons[j]@ == {
                        let read = Button::new_view(
                            if j == 0 {
                                a_is_low
                            } else {
                                b_is_low
                            },
                        );
                        if j < i {
                            read.forced(ButtonState::NotPressed)
                        } else {
                            read
                        }
                    },
        {
            if this.buttons[i].state().is_pressed() {
                this.buttons[i].force_state_change(ButtonState::NotPressed);
            }
        }

        this
    }

    /// You must call this every `button::BUTTON_TIMER_US` microseconds for it
    /// to work correctly, with a new reading of the clock and of each
    /// button's pin. It yields at most one action; where a button that was
    /// held times out, that is the action, and the readings of the pins are
    /// left aside.
    pub fn update(&mut self, now_us: u32, readings: [Result<bool, Void>; 2]) -> (action: Option<
        ButtonAction,
    >)
        requires
            old(self)@.wf(),
        ensures
            (final(self)@, action) == old(self)@.update(
                now_us as nat,
                seq![reading_is_low(readings[0]), reading_is_low(readings[1])],
            ),
            final(self)@.wf(),
    {
        self.time_source.capture(now_us);

        let timeout = self.check_timeout();
        if timeout.is_some() {
            return timeout;
        }
        let left = self.update_button(0, readings[0]);
        let right = self.update_button(1, readings[1]);

        if left.is_some() {
            left
        } else {
            right
        }
    }

    /// Check if a button has been held down for more than a short moment. If
    /// so, release the button.
    ///
    /// This makes movement feel more responsive. The player probably expects
    /// actions to happen when they *press* buttons, not when they release them.
    ///
    /// Instead of reacting *immediately* on-press, we wait briefly to see if
    /// the user presses the other button as well. That way we can still detect
    /// the user pressing both buttons "at the same time".
    fn check_timeout(&mut self) -> (action: Option<ButtonAction>)
        requires
            old(self)@.wf(),
        ensures
            (final(self)@, action) == old(self)@.check_timeout(),
            final(self)@.wf(),
    {
        if let Some(t) = self.held_since {
            if self.time_source.elapsed_us(t) >= PRESS_AND_HOLD_TIMEOUT_US {
                // Release whichever button was held.
                for i in 0..2usize
                    invariant
                        *self == *old(self),
                        self@.wf(),
                        self@.timed_out(),
                        forall|j: int| 0 <= j < i ==> !self@.is_pressed(j),
                {
                    if self.buttons[i].state().is_pressed() {
                        self.buttons[i].force_state_change(ButtonState::NotPressed);
                        self.held_since = None;
                        assert(self@.buttons =~= old(self)@.check_timeout().0.buttons);
                        return Some(ButtonAction::left_right(i));
                    }
                }
                assert(false);
            }
        }
        None
    }

    /// Check a button for state changes.
    fn update_button(&mut self, i: usize, reading: Result<bool, Void>) -> (action: Option<
        ButtonAction,
    >)
        requires
            i < 2,
            old(self)@.wf(),
        ensures
            (final(self)@, action) == old(self)@.update_button(i as int, reading_is_low(reading)),
            final(self)@.wf(),
    {
        let change = self.buttons[i].update(reading);
        let action = match change {
            None => None,
            Some(ButtonState::Pressed) => {
                // Is the other button also pressed?
                if self.buttons[1 - i].state().is_pressed() {
                    // Treat both buttons as released, so the player doesn't
                    // move when they physically release the buttons.
                    self.buttons[i].force_state_change(ButtonState::NotPressed);
                    self.buttons[1 - i].force_state_change(ButtonState::NotPressed);
                    self.held_since = None;
                    Some(ButtonAction::Fire)
                } else {
                    self.held_since = Some(self.time_source.curr_time_us());
                    None
                }
            },
            Some(ButtonState::NotPressed) => {
                self.held_since = None;
                Some(ButtonAction::left_right(i))
            },
        };
        assert(self@.buttons =~= old(self)@.update_button(
            i as int,
            reading_is_low(reading),
        ).0.buttons);
        action
    }
}

impl ButtonAction {
    /// The movement that belongs to button number `i`: button 0 moves left,
    /// button 1 moves right.
    pub fn left_right(i: usize) -> (action: Self)
        requires
            i < 2,
        ensures
            action == Self::spec_left_right(i as int),
    {
        match i {
            0 => Self::Left,
            _ => Self::Right,
        }
    }

    /// The movement that belongs to button number `i`.
    pub open spec fn spec_left_right(i: int) -> Self {
        if i == 0 {
            Self::Left
        } else {
            Self::Right
        }
    }
}

/// An update yields at most one action: where the look at button 0 yields
/// one, the look at button 1 yields none. And the buttons are well-formed
/// again after each part of an update.
pub proof fn lemma_at_most_one_action(buttons: ButtonsView, now: nat, pin_is_low: Seq<bool>)
    requires
        buttons.wf(),
    ensures
        ({
            let clocked = ButtonsView { now, ..buttons };
            let (released, timeout) = clocked.check_timeout();
            let (first, left) = released.update_button(0, pin_is_low[0]);
            let (second, right) = first.update_button(1, pin_is_low[1]);
            &&& released.wf()
            &&& first.wf()
            &&& second.wf()
            &&& !(left is Some && right is Some)
        }),
        buttons.update(now, pin_is_low).0.wf(),
{
}

/// A button that is held alone until the timeout moves once, then: the
/// update at which the timeout is found yields the button's movement, and
/// leaves both buttons released and no press noted, so that neither the
/// timeout nor the release that follows yields the movement again.
pub proof fn lemma_hold_moves_at_timeout(
    buttons: ButtonsView,
    i: int,
    now: nat,
    pin_is_low: Seq<bool>,
)
    requires
        buttons.wf(),
        0 <= i < 2,
        buttons.is_pressed(i),
        (ButtonsView { now, ..buttons }).timed_out(),
    ensures
        buttons.update(now, pin_is_low).1 == Some(ButtonAction::spec_left_right(i)),
        !buttons.update(now, pin_is_low).0.is_pressed(0),
        !buttons.update(now, pin_is_low).0.is_pressed(1),
        buttons.update(now, pin_is_low).0.held_since is None,
{
}

/// A press alone yields nothing yet: where button `i` is found pressed
/// while the other is released and stays so, the update yields no action and
/// notes the time of the press.
pub proof fn lemma_press_alone_waits(
    buttons: ButtonsView,
    i: int,
    now: nat,
    pin_is_low: Seq<bool>,
)
    requires
        buttons.wf(),
        0 <= i < 2,
        !buttons.is_pressed(1 - i),
        pin_is_low.len() == 2,
        buttons.buttons[i].change(pin_is_low[i]) == Some(ButtonState::Pressed),
        buttons.buttons[1 - i].change(pin_is_low[1 - i]) is None,
    ensures
        buttons.update(now, pin_is_low).1 is None,
        buttons.update(now, pin_is_low).0.is_pressed(i),
        !buttons.update(now, pin_is_low).0.is_pressed(1 - i),
        buttons.update(now, pin_is_low).0.held_since == Some(now),
{
}

/// A second press fires: where button `i` is found pressed while the other
/// is held and has not timed out, the update yields `Fire` and leaves both
/// buttons released and no press noted.
pub proof fn lemma_second_press_fires(
    buttons: ButtonsView,
    i: int,
    now: nat,
    pin_is_low: Seq<bool>,
)
    requires
        buttons.wf(),
        0 <= i < 2,
        buttons.is_pressed(1 - i),
        !(ButtonsView { now, ..buttons }).timed_out(),
        pin_is_low.len() == 2,
        buttons.buttons[i].change(pin_is_low[i]) == Some(ButtonState::Pressed),
        buttons.buttons[1 - i].change(pin_is_low[1 - i]) is None,
    ensures
        buttons.update(now, pin_is_low).1 == Some(ButtonAction::Fire),
        !buttons.update(now, pin_is_low).0.is_pressed(0),
        !buttons.update(now, pin_is_low).0.is_pressed(1),
        buttons.update(now, pin_is_low).0.held_since is None,
{
}

/// A release before the timeout moves: where button `i` is held, has not
/// timed out and is found released, while nothing is found of the other, the
/// update yields the button's movement and leaves no press noted.
pub proof fn lemma_quick_release_moves(
    buttons: ButtonsView,
    i: int,
    now: nat,
    pin_is_low: Seq<bool>,
)
    requires
        buttons.wf(),
        0 <= i < 2,
        buttons.is_pressed(i),
        !(ButtonsView { now, ..buttons }).timed_out(),
        pin_is_low.len() == 2,
        buttons.buttons[i].change(pin_is_low[i]) == Some(ButtonState::NotPressed),
        buttons.buttons[1 - i].change(pin_is_low[1 - i]) is None,
    ensures
        buttons.update(now, pin_is_low).1 == Some(ButtonAction::spec_left_right(i)),
        !buttons.update(now, pin_is_low).0.is_pressed(0),
        !buttons.update(now, pin_is_low).0.is_pressed(1),
        buttons.update(now, pin_is_low).0.held_since is None,
{
}

/// Nothing new, no action: where no button has timed out and nothing is
/// found of either button, the update yields no action.
pub proof fn lemma_no_change_no_action(buttons: ButtonsView, now: nat, pin_is_low: Seq<bool>)
    requires
        buttons.wf(),
        !(ButtonsView { now, ..buttons }).timed_out(),
        pin_is_low.len() == 2,
        buttons.buttons[0].change(pin_is_low[0]) is None,
        buttons.buttons[1].change(pin_is_low[1]) is None,
    ensures
        buttons.update(now, pin_is_low).1 is None,
        buttons.update(now, pin_is_low).0.held_since == buttons.held_since,
        buttons.update(now, pin_is_low).0.is_pressed(0) == buttons.is_pressed(0),
        buttons.update(now, pin_is_low).0.is_pressed(1) == buttons.is_pressed(1),
{
}

/// One poll more is one more update.
pub proof fn lemma_before_next(start: ButtonsView, polls: Seq<Poll>, k: int)
    requires
        0 <= k < polls.len(),
    ensures
        start.before(polls, k + 1) == start.before(polls, k).update(
            polls[k].now,
            polls[k].pin_is_low(),
        ).0,
{
    assert(polls.take(k + 1).drop_last() =~= polls.take(k));
}

/// A press of button `i` that is committed at poll `a` and held, while
/// nothing is found of the other button, times out at poll `t`.
pub open spec fn held_until_timeout(
    start: ButtonsView,
    polls: Seq<Poll>,
    i: int,
    a: int,
    t: int,
) -> bool {
    &&& start.wf()
    &&& start.idle()
    &&& 0 <= i < 2
    &&& 0 <= a < t < polls.len()
    &&& start.change_at(polls, a, i) == Some(ButtonState::Pressed)
    &&& forall|k: int|
        0 <= k < polls.len() && k != a && k != t ==> #[trigger] start.change_at(polls, k, i)
            is None
    &&& forall|k: int|
        0 <= k < polls.len() && k != t ==> #[trigger] start.change_at(polls, k, 1 - i) is None
    &&& forall|k: int| a < k < t ==> #[trigger] elapsed_at(polls, a, k) < PRESS_AND_HOLD_TIMEOUT_US
    &&& elapsed_at(polls, a, t) >= PRESS_AND_HOLD_TIMEOUT_US
}

/// How the buttons stand through a hold: released up to the press, held
/// from the press up to the timeout, released from then on.
proof fn lemma_hold_run(start: ButtonsView, polls: Seq<Poll>, i: int, a: int, t: int, k: int)
    requires
        held_until_timeout(start, polls, i, a, t),
        0 <= k <= polls.len(),
    ensures
        start.before(polls, k).wf(),
        k <= a || k > t ==> start.before(polls, k).idle(),
        a < k <= t ==> start.before(polls, k).is_pressed(i) && start.before(polls, k).held_since
            == Some(polls[a].now),
    decreases k,
{
    if k == 0 {
        assert(polls.take(0) =~= Seq::<Poll>::empty());
    } else {
        let j = k - 1;
        lemma_hold_run(start, polls, i, a, t, j);
        lemma_before_next(start, polls, j);
        let before = start.before(polls, j);
        let now = polls[j].now;
        let pins = polls[j].pin_is_low();
        lemma_at_most_one_action(before, now, pins);
        if j == t {
            lemma_hold_moves_at_timeout(before, i, now, pins);
        } else {
            assert(start.change_at(polls, j, 1 - i) is None);
            if a < j < t {
                assert(elapsed_at(polls, a, j) < PRESS_AND_HOLD_TIMEOUT_US);
            }
            if j == a {
                lemma_press_alone_waits(before, i, now, pins);
            } else {
                assert(start.change_at(polls, j, i) is None);
                lemma_no_change_no_action(before, now, pins);
            }
        }
    }
}

/// A button that is pressed alone and held moves once, at the timeout: over
/// the whole run of polls the one action is the button's movement, at the
/// first poll that finds the press 100 ms old. No poll before it yields an
/// action, and none after it, whenever the button is let go.
pub proof fn lemma_hold_yields_one_move(
    start: ButtonsView,
    polls: Seq<Poll>,
    i: int,
    a: int,
    t: int,
)
    requires
        held_until_timeout(start, polls, i, a, t),
    ensures
        start.action_at(polls, t) == Some(ButtonAction::spec_left_right(i)),
        forall|k: int| 0 <= k < polls.len() && k != t ==> #[trigger] start.action_at(polls, k) is None,
{
    lemma_hold_run(start, polls, i, a, t, t);
    lemma_hold_moves_at_timeout(start.before(polls, t), i, polls[t].now, polls[t].pin_is_low());
    assert forall|k: int| 0 <= k < polls.len() && k != t implies #[trigger] start.action_at(
        polls,
        k,
    ) is None by {
        lemma_hold_run(start, polls, i, a, t, k);
        let before = start.before(polls, k);
        assert(start.change_at(polls, k, 1 - i) is None);
        if a < k < t {
            assert(elapsed_at(polls, a, k) < PRESS_AND_HOLD_TIMEOUT_US);
        }
        if k == a {
            lemma_press_alone_waits(before, i, polls[k].now, polls[k].pin_is_low());
        } else {
            assert(start.change_at(polls, k, i) is None);
            lemma_no_change_no_action(before, polls[k].now, polls[k].pin_is_low());
        }
    }
}

/// A press of button `i` that is committed at poll `a`, and a press of the
/// other button that is committed at poll `b`, before the first has timed
/// out. Nothing else is found of either button.
pub open spec fn pressed_one_after_the_other(
    start: ButtonsView,
    polls: Seq<Poll>,
    i: int,
    a: int,
    b: int,
) -> bool {
    &&& start.wf()
    &&& start.idle()
    &&& 0 <= i < 2
    &&& 0 <= a < b < polls.len()
    &&& start.change_at(polls, a, i) == Some(ButtonState::Pressed)
    &&& start.change_at(polls, b, 1 - i) == Some(ButtonState::Pressed)
    &&& forall|k: int|
        0 <= k < polls.len() && k != a ==> #[trigger] start.change_at(polls, k, i) is None
    &&& forall|k: int|
        0 <= k < polls.len() && k != b ==> #[trigger] start.change_at(polls, k, 1 - i) is None
    &&& forall|k: int| a < k <= b ==> #[trigger] elapsed_at(polls, a, k) < PRESS_AND_HOLD_TIMEOUT_US
}

/// How the buttons stand through two presses: released up to the first
/// press, the first button held up to the second press, released from then
/// on.
proof fn lemma_fire_run(start: ButtonsView, polls: Seq<Poll>, i: int, a: int, b: int, k: int)
    requires
        pressed_one_after_the_other(start, polls, i, a, b),
        0 <= k <= polls.len(),
    ensures
        start.before(polls, k).wf(),
        k <= a || k > b ==> start.before(polls, k).idle(),
        a < k <= b ==> start.before(polls, k).is_pressed(i) && start.before(polls, k).held_since
            == Some(polls[a].now),
    decreases k,
{
    if k == 0 {
        assert(polls.take(0) =~= Seq::<Poll>::empty());
    } else {
        let j = k - 1;
        lemma_fire_run(start, polls, i, a, b, j);
        lemma_before_next(start, polls, j);
        let before = start.before(polls, j);
        let now = polls[j].now;
        let pins = polls[j].pin_is_low();
        lemma_at_most_one_action(before, now, pins);
        if a < j <= b {
            assert(elapsed_at(polls, a, j) < PRESS_AND_HOLD_TIMEOUT_US);
        }
        if j == a {
            assert(start.change_at(polls, j, 1 - i) is None);
            lemma_press_alone_waits(before, i, now, pins);
        } else if j == b {
            assert(start.change_at(polls, j, i) is None);
            lemma_second_press_fires(before, 1 - i, now, pins);
        } else {
            assert(start.change_at(polls, j, i) is None);
            assert(start.change_at(polls, j, 1 - i) is None);
            lemma_no_change_no_action(before, now, pins);
        }
    }
}

/// Two presses within the timeout fire once: over the whole run of polls
/// the one action is `Fire`, at the poll that commits the second press. That
/// poll leaves both buttons released and no press noted, and so they stay:
/// no movement is ever yielded, whenever the buttons are let go.
pub proof fn lemma_two_presses_yield_one_fire(
    start: ButtonsView,
    polls: Seq<Poll>,
    i: int,
    a: int,
    b: int,
)
    requires
        pressed_one_after_the_other(start, polls, i, a, b),
    ensures
        start.action_at(polls, b) == Some(ButtonAction::Fire),
        forall|k: int| 0 <= k < polls.len() && k != b ==> #[trigger] start.action_at(polls, k) is None,
        forall|k: int|
            b < k <= polls.len() ==> (#[trigger] start.before(polls, k)).idle() && start.before(
                polls,
                k,
            ).held_since is None,
{
    assert forall|k: int| 0 <= k < polls.len() implies #[trigger] start.action_at(polls, k) == (if k
        == b {
        Some(ButtonAction::Fire)
    } else {
        None
    }) by {
        lemma_fire_run(start, polls, i, a, b, k);
        let before = start.before(polls, k);
        let now = polls[k].now;
        let pins = polls[k].pin_is_low();
        if a < k <= b {
            assert(elapsed_at(polls, a, k) < PRESS_AND_HOLD_TIMEOUT_US);
        }
        if k == a {
            assert(start.change_at(polls, k, 1 - i) is None);
            lemma_press_alone_waits(before, i, now, pins);
        } else if k == b {
            assert(start.change_at(polls, k, i) is None);
            lemma_second_press_fires(before, 1 - i, now, pins);
        } else {
            assert(start.change_at(polls, k, i) is None);
            assert(start.change_at(polls, k, 1 - i) is None);
            lemma_no_change_no_action(before, now, pins);
        }
    }
    assert forall|k: int| b < k <= polls.len() implies (#[trigger] start.before(polls, k)).idle()
        && start.before(polls, k).held_since is None by {
        lemma_fire_run(start, polls, i, a, b, k);
    }
}

/// A press of button `i` that is committed at poll `a`, and its release,
/// which is committed at poll `b` before the press has timed out. Nothing
/// else is found of the button, and nothing of the other.
pub open spec fn pressed_and_let_go(
    start: ButtonsView,
    polls: Seq<Poll>,
    i: int,
    a: int,
    b: int,
) -> bool {
    &&& start.wf()
    &&& start.idle()
    &&& 0 <= i < 2
    &&& 0 <= a < b < polls.len()
    &&& start.change_at(polls, a, i) == Some(ButtonState::Pressed)
    &&& start.change_at(polls, b, i) == Some(ButtonState::NotPressed)
    &&& forall|k: int|
        0 <= k < polls.len() && k != a && k != b ==> #[trigger] start.change_at(polls, k, i)
            is None
    &&& forall|k: int| 0 <= k < polls.len() ==> #[trigger] start.change_at(polls, k, 1 - i) is None
    &&& forall|k: int| a < k <= b ==> #[trigger] elapsed_at(polls, a, k) < PRESS_AND_HOLD_TIMEOUT_US
}

/// How the buttons stand through a quick press: released up to the press,
/// held up to the release, released from then on.
proof fn lemma_quick_press_run(
    start: ButtonsView,
    polls: Seq<Poll>,
    i: int,
    a: int,
    b: int,
    k: int,
)
    requires
        pressed_and_let_go(start, polls, i, a, b),
        0 <= k <= polls.len(),
    ensures
        start.before(polls, k).wf(),
        k <= a || k > b ==> start.before(polls, k).idle(),
        a < k <= b ==> start.before(polls, k).is_pressed(i) && start.before(polls, k).held_since
            == Some(polls[a].now),
    decreases k,
{
    if k == 0 {
        assert(polls.take(0) =~= Seq::<Poll>::empty());
    } else {
        let j = k - 1;
        lemma_quick_press_run(start, polls, i, a, b, j);
        lemma_before_next(start, polls, j);
        let before = start.before(polls, j);
        let now = polls[j].now;
        let pins = polls[j].pin_is_low();
        lemma_at_most_one_action(before, now, pins);
        assert(start.change_at(polls, j, 1 - i) is None);
        if a < j <= b {
            assert(elapsed_at(polls, a, j) < PRESS_AND_HOLD_TIMEOUT_US);
        }
        if j == a {
            lemma_press_alone_waits(before, i, now, pins);
        } else if j == b {
            lemma_quick_release_moves(before, i, now, pins);
        } else {
            assert(start.change_at(polls, j, i) is None);
            lemma_no_change_no_action(before, now, pins);
        }
    }
}

/// A quick press moves once, at the release: over the whole run of polls
/// the one action is the button's movement, at the poll that commits the
/// release. No poll before it yields an action, also not the one that
/// commits the press, and none after it.
pub proof fn lemma_quick_press_yields_one_move(
    start: ButtonsView,
    polls: Seq<Poll>,
    i: int,
    a: int,
    b: int,
)
    requires
        pressed_and_let_go(start, polls, i, a, b),
    ensures
        start.action_at(polls, b) == Some(ButtonAction::spec_left_right(i)),
        forall|k: int| 0 <= k < polls.len() && k != b ==> #[trigger] start.action_at(polls, k) is None,
{
    assert forall|k: int| 0 <= k < polls.len() implies #[trigger] start.action_at(polls, k) == (if k
        == b {
        Some(ButtonAction::spec_left_right(i))
    } else {
        None
    }) by {
        lemma_quick_press_run(start, polls, i, a, b, k);
        let before = start.before(polls, k);
        let now = polls[k].now;
        let pins = polls[k].pin_is_low();
        assert(start.change_at(polls, k, 1 - i) is None);
        if a < k <= b {
            assert(elapsed_at(polls, a, k) < PRESS_AND_HOLD_TIMEOUT_US);
        }
        if k == a {
            lemma_press_alone_waits(before, i, now, pins);
        } else if k == b {
            lemma_quick_release_moves(before, i, now, pins);
        } else {
            assert(start.change_at(polls, k, i) is None);
            lemma_no_change_no_action(before, now, pins);
        }
    }
}

} // verus!
