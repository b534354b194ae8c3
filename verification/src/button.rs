//! A keypad button: a rectangular control that turns touch transitions
//! into click and long-press gestures.
//!
//! A press begins on a touch-down inside the button's area while it is
//! shown and enabled. It ends either with a touch-up (a click, when the
//! release is still inside the area) or, for buttons configured with a
//! hold gesture, with the hold timer firing first (a long press). Only
//! one of the two fires per press.

use vstd::prelude::*;

use crate::event::{Event, EventCtx, TimerToken, TouchEvent};
use crate::geometry::{Point, Rect};

verus! {

/// How long the erase button must be held before a long press fires,
/// in milliseconds.
pub const HOLD_DURATION_MS: u32 = 1500;

/// What a button shows: a digit label or an icon.
#[derive(Clone, Copy, PartialEq, Eq, Structural, Debug)]
pub enum ButtonContent {
    Text(char),
    Icon,
}

/// The gesture a button reports for one event.
#[derive(Clone, Copy, PartialEq, Eq, Structural, Debug)]
pub enum ButtonMsg {
    Clicked,
    LongPressed,
}

#[derive(Clone, Copy)]
pub struct Button {
    pub area: Rect,
    pub content: ButtonContent,
    pub enabled: bool,
    pub visible: bool,
    pub wants_long_press: bool,
    pub pressed: bool,
    pub hold_timer: Option<TimerToken>,
}

/// Whether `e` begins a press on `b`: a touch-down inside the area of a
/// shown, enabled button.
pub open spec fn press_starts(b: Button, e: Event) -> bool {
    match e {
        Event::Touch(TouchEvent::TouchStart(p)) =>
            b.visible && b.enabled && b.area.spec_contains(p),
        _ => false,
    }
}

/// Whether `e` completes a click on `b`: a touch-up inside the area while
/// the button is pressed.
pub open spec fn clicks(b: Button, e: Event) -> bool {
    match e {
        Event::Touch(TouchEvent::TouchEnd(p)) => b.pressed && b.area.spec_contains(p),
        _ => false,
    }
}

/// Whether `e` completes a long press on `b`: the button's own hold timer
/// fires while the button is still pressed.
pub open spec fn long_presses(b: Button, e: Event) -> bool {
    match e {
        Event::Timer(t) => b.pressed && b.hold_timer == Some(t),
        _ => false,
    }
}

/// The gesture `b` reports for `e`.
pub open spec fn button_msg(b: Button, e: Event) -> Option<ButtonMsg> {
    if clicks(b, e) {
        Some(ButtonMsg::Clicked)
    } else if long_presses(b, e) {
        Some(ButtonMsg::LongPressed)
    } else {
        None
    }
}

/// The button's state after it handles `e`; `fresh` is the timer token a
/// hold-gesture press would be issued.
pub open spec fn button_after(b: Button, e: Event, fresh: TimerToken) -> Button {
    match e {
        Event::Touch(TouchEvent::TouchStart(_)) => {
            if press_starts(b, e) {
                Button {
                    pressed: true,
                    hold_timer: if b.wants_long_press { Some(fresh) } else { None },
                    ..b
                }
            } else {
                Button { pressed: false, hold_timer: None, ..b }
            }
        },
        Event::Touch(TouchEvent::TouchEnd(_)) => Button { pressed: false, hold_timer: None, ..b },
        Event::Timer(_) => {
            if long_presses(b, e) {
                Button { pressed: false, hold_timer: None, ..b }
            } else {
                b
            }
        },
        Event::Attach => b,
    }
}

impl Button {
    pub fn new(content: ButtonContent, enabled: bool, visible: bool, wants_long_press: bool) -> (r:
        Button)
        ensures
            r == (Button {
                area: Rect { x0: 0, y0: 0, x1: 0, y1: 0 },
                content,
                enabled,
                visible,
                wants_long_press,
                pressed: false,
                hold_timer: None,
            }),
    {
        Button {
            area: Rect::zero(),
            content,
            enabled,
            visible,
            wants_long_press,
            pressed: false,
            hold_timer: None,
        }
    }

    /// Caches the screen region this button occupies.
    pub fn place(&mut self, area: Rect)
        ensures
            *final(self) == (Button { area, ..*old(self) }),
    {
        self.area = area;
    }

    pub fn set_enabled(&mut self, enabled: bool)
        ensures
            *final(self) == (Button { enabled, ..*old(self) }),
    {
        self.enabled = enabled;
    }

    pub fn set_visible(&mut self, visible: bool)
        ensures
            *final(self) == (Button { visible, ..*old(self) }),
    {
        self.visible = visible;
    }

    /// Feeds one event to the button and reports the gesture it
    /// completes, if any.
    pub fn event(&mut self, ctx: &mut EventCtx, e: &Event) -> (r: Option<ButtonMsg>)
        requires
            (old(self).wants_long_press && *e matches Event::Touch(TouchEvent::TouchStart(_)))
                ==> old(ctx).next_timer_id < u32::MAX,
        ensures
            r == button_msg(*old(self), *e),
            *final(self) == button_after(
                *old(self),
                *e,
                TimerToken { id: old(ctx).next_timer_id },
            ),
            final(ctx).next_timer_id == old(ctx).next_timer_id + (
            if press_starts(*old(self), *e) && old(self).wants_long_press {
                1int
            } else {
                0int
            }),
            final(ctx).paint_requested == old(ctx).paint_requested,
    {
        match *e {
            Event::Touch(TouchEvent::TouchStart(p)) => {
                if self.visible && self.enabled && self.area.contains(p) {
                    self.pressed = true;
                    if self.wants_long_press {
                        let t = ctx.request_timer(HOLD_DURATION_MS);
                        self.hold_timer = Some(t);
                    } else {
                        self.hold_timer = None;
                    }
                } else {
                    self.pressed = false;
                    self.hold_timer = None;
                }
                None
            },
            Event::Touch(TouchEvent::TouchEnd(p)) => {
                let was_pressed = self.pressed;
                self.pressed = false;
                self.hold_timer = None;
                if was_pressed && self.area.contains(p) {
                    Some(ButtonMsg::Clicked)
                } else {
                    None
                }
            },
            Event::Timer(t) => {
                let fires = self.pressed && match self.hold_timer {
                    Some(own) => own.id == t.id,
                    None => false,
                };
                if fires {
                    self.pressed = false;
                    self.hold_timer = None;
                    Some(ButtonMsg::LongPressed)
                } else {
                    None
                }
            },
            Event::Attach => None,
        }
    }
}

} // verus!
