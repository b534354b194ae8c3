//! A PIN-entry keypad widget for a touch-screen device.
//!
//! The keypad collects a numeric secret on a randomized on-screen layout,
//! renders a masked representation of the entered length (or, while the
//! indicator is touched, a scrolling window of the literal digits), and
//! emits a terminal `Confirmed` or `Cancelled` outcome.
//!
//! Drawing, touch sampling and the timer service are the owner's business:
//! this crate models them as plain values (rectangles, events, render
//! plans) and proves how the widget's state reacts to them.

use vstd::prelude::*;

mod button;
mod event;
mod geometry;
mod keypad;
mod pin_dots;
mod shuffle;

pub use button::{Button, ButtonContent, ButtonMsg};
pub use event::{Event, EventCtx, TimerToken, TouchEvent};
pub use geometry::{Grid, Point, Rect};
pub use keypad::{KeypadRender, PinKeyboard, PinKeyboardMsg, BUTTON_SPACING, KEYPAD_HEIGHT};
pub use pin_dots::{Dot, DotKind, IndicatorRender, PinDots, DOT_PADDING, DOT_SIZE,
    HEADER_PADDING_SIDE, HEADER_PADDING_TOP, MAX_LENGTH, MAX_VISIBLE_DIGITS, MAX_VISIBLE_DOTS,
    TWITCH};
pub use shuffle::shuffled_digits;

verus! {

} // verus!
