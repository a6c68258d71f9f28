//! Control logic of a two-button, 5×5 LED matrix game console.
//!
//! The crate holds the parts of the console that decide something: the
//! debouncing of the buttons, the recognition of button gestures, the
//! row-by-row strobing of the LED matrix and the phases of the game. Reading
//! pins, driving pins and reading the hardware counter are left to the
//! caller, who hands readings in and gets pin levels back.

pub mod buttons;
pub mod display;
pub mod game_logic;
pub mod wrapping_timer;
