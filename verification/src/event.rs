//! Events the keypad reacts to, and the per-event context that hands out
//! timer tokens and collects repaint requests.

use vstd::prelude::*;

use crate::geometry::Point;

verus! {

/// An opaque handle for a one-shot timer, compared by equality to
/// recognize the widget's own timer among incoming timer events.
#[derive(Clone, Copy, PartialEq, Eq, Structural, Debug)]
pub struct TimerToken {
    pub id: u32,
}

/// A discrete touch transition carrying its screen position.
#[derive(Clone, Copy, PartialEq, Eq, Structural, Debug)]
pub enum TouchEvent {
    TouchStart(Point),
    TouchEnd(Point),
}

/// One event delivered to the widget.
#[derive(Clone, Copy, PartialEq, Eq, Structural, Debug)]
pub enum Event {
    /// The widget was just attached to the screen.
    Attach,
    /// A previously requested one-shot timer fired.
    Timer(TimerToken),
    /// A touch transition.
    Touch(TouchEvent),
}

/// Bookkeeping that accompanies one event dispatch: fresh timer tokens
/// and whether anything asked to be repainted.
pub struct EventCtx {
    pub next_timer_id: u32,
    pub paint_requested: bool,
}

impl EventCtx {
    pub fn new() -> (r: EventCtx)
        ensures
            r.next_timer_id == 0,
            !r.paint_requested,
    {
        EventCtx { next_timer_id: 0, paint_requested: false }
    }

    /// Asks the owner's scheduler for a one-shot wake-up and returns the
    /// fresh handle that the later timer event will carry.
    pub fn request_timer(&mut self, _duration_ms: u32) -> (r: TimerToken)
        requires
            old(self).next_timer_id < u32::MAX,
        ensures
            r.id == old(self).next_timer_id,
            final(self).next_timer_id == old(self).next_timer_id + 1,
            final(self).paint_requested == old(self).paint_requested,
    {
        let id = self.next_timer_id;
        self.next_timer_id = self.next_timer_id + 1;
        TimerToken { id }
    }

    /// Marks that the caller wants a repaint.
    pub fn request_paint(&mut self)
        ensures
            final(self).paint_requested,
            final(self).next_timer_id == old(self).next_timer_id,
    {
        self.paint_requested = true;
    }
}

} // verus!
