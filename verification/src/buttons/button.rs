use self::debouncer::Debouncer;
use self::debouncer::DebouncerView;
use void::ResultVoidExt;
use void::Void;
use vstd::prelude::*;

pub mod debouncer;

/// You must call the Button's `update` method this often, so that the
/// debouncing algorithm works correctly.
pub use self::debouncer::DEBOUNCER_TIMER_US as BUTTON_TIMER_US;

verus! {

/// A button: the state that the game takes it to be in, and the debouncer
/// that filters the readings of its pin.
pub struct Button {
    state: ButtonState,
    debouncer: Debouncer,
}

/// The logical state of a button.
#[derive(Debug, Clone, Copy, PartialEq, Eq, Structural)]
pub enum ButtonState {
    NotPressed,
    Pressed,
}

/// A button: the state it is held to be in, and its debouncer.
pub struct ButtonView {
    pub state: ButtonState,
    pub debouncer: DebouncerView,
}

/// `void::Void`, the error of a pin that cannot fail to be read: a type
/// without values.
#[verifier::external_type_specification]
#[verifier::external_body]
pub struct ExVoid(Void);

/// The reading that finds the pin low, or high.
pub open spec fn reading_of(pin_is_low: bool) -> Result<bool, Void> {
    Ok(pin_is_low)
}

/// Whether a reading of the button's pin found the pin low.
pub open spec fn reading_is_low(reading: Result<bool, Void>) -> bool {
    reading == reading_of(true)
}

/// The state that a level of the button's pin stands for.
///
/// Note: low = pressed.
pub open spec fn level_state(pin_is_low: bool) -> ButtonState {
    if pin_is_low {
        ButtonState::Pressed
    } else {
        ButtonState::NotPressed
    }
}

impl ButtonView {
    /// The button's debouncer is well-formed.
    pub open spec fn wf(self) -> bool {
        self.debouncer.wf()
    }

    /// The change of state that the reading brings, if it brings one: the
    /// debouncer's verdict, unless the button is held to be in that state
    /// already.
    pub open spec fn change(self, pin_is_low: bool) -> Option<ButtonState> {
        match self.debouncer.verdict(level_state(pin_is_low)) {
            Some(new_state) if new_state != self.state => Some(new_state),
            _ => None,
        }
    }

    /// The button after the reading.
    pub open spec fn step(self, pin_is_low: bool) -> ButtonView {
        ButtonView {
            state: match self.change(pin_is_low) {
                Some(new_state) => new_state,
                None => self.state,
            },
            debouncer: self.debouncer.step(level_state(pin_is_low)),
        }
    }

    /// The button forced into `new_state`. The debouncer is left as it is.
    pub open spec fn forced(self, new_state: ButtonState) -> ButtonView {
        ButtonView { state: new_state, ..self }
    }

    /// Whether the button is held to be pressed.
    pub open spec fn is_pressed(self) -> bool {
        self.state == ButtonState::Pressed
    }
}

impl Button {
    /// A button whose pin was just read for the first time, and whose
    /// debouncer has seen nothing yet.
    pub open spec fn new_view(pin_is_low: bool) -> ButtonView {
        ButtonView {
            state: level_state(pin_is_low),
            debouncer: DebouncerView { state: level_state(pin_is_low), count: 0 },
        }
    }
}

impl View for Button {
    type V = ButtonView;

    closed spec fn view(&self) -> ButtonView {
        ButtonView { state: self.state, debouncer: self.debouncer@ }
    }
}

impl Button {
    /// A button whose pin was just read for the first time.
    pub fn new(reading: Result<bool, Void>) -> (button: Self)
        ensures
            button@ == Button::new_view(reading_is_low(reading)),
            button@.wf(),
    {
        let initial_state = read_state(reading);

        Self { state: initial_state, debouncer: Debouncer::new(initial_state) }
    }

    /// The state that the button is held to be in. Reads no pin.
    pub fn state(&self) -> (state: ButtonState)
        ensures
            state == self@.state,
    {
        self.state
    }

    /// Returns `Some` whenever `state` changes.
    ///
    /// You must call this every `BUTTON_TIMER_US` microseconds, with a new
    /// reading of the pin, for it to work correctly.
    pub fn update(&mut self, reading: Result<bool, Void>) -> (change: Option<ButtonState>)
        requires
            old(self)@.wf(),
        ensures
            final(self)@ == old(self)@.step(reading_is_low(reading)),
            final(self)@.wf(),
            change == old(self)@.change(reading_is_low(reading)),
    {
        match self.debouncer.update(read_state(reading)) {
            None => None,
            Some(new_state) => {
                if new_state == self.state {
                    None
                } else {
                    self.state = new_state;
                    Some(new_state)
                }
            },
        }
    }

    /// Force the button into a certain state.
    ///
    /// For example, if the button is physically pressed, you may force it to be
    /// released. Later, when the button is physically released, `update` will
    /// return `None`, since the button's `state` hasn't changed.
    pub fn force_state_change(&mut self, new_state: ButtonState)
        ensures
            final(self)@ == old(self)@.forced(new_state),
    {
        self.state = new_state;
    }
}

/// The pin's level bounds what a reading can find: a press is found only by
/// a low reading, a release only by a high one, and neither of a button that
/// is held to be in that state already.
pub proof fn lemma_change_follows_level(button: ButtonView, pin_is_low: bool)
    ensures
        button.change(pin_is_low) is Some ==> button.change(pin_is_low) == Some(
            level_state(pin_is_low),
        ) && button.state != level_state(pin_is_low),
{
}

/// The state that a reading of the button's pin stands for.
pub fn read_state(reading: Result<bool, Void>) -> (state: ButtonState)
    ensures
        state == level_state(reading_is_low(reading)),
{
    // Note: low = pressed.
    if void_unwrap(reading) {
        ButtonState::Pressed
    } else {
        ButtonState::NotPressed
    }
}

/// Calls `void_unwrap` of `void::ResultVoidExt` on a reading of a pin. Not
/// proved, but taken from the crate: a `Void` has no values, so the reading is
/// always `Ok`, and the call hands out the level that it holds.
#[verifier::external_body]
fn void_unwrap(reading: Result<bool, Void>) -> (pin_is_low: bool)
    ensures
        reading == reading_of(pin_is_low),
{
    reading.void_unwrap()
}

impl ButtonState {
    /// Whether this is the pressed state.
    pub fn is_pressed(self) -> (pressed: bool)
        ensures
            pressed == (self == ButtonState::Pressed),
    {
        match self {
            Self::NotPressed => false,
            Self::Pressed => true,
        }
    }
}

} // verus!
