//! Keypad scenarios: derived control state, the warning lifecycle, and
//! the fixed event dispatch order.

use pin_keyboard::{Event, EventCtx, Grid, PinKeyboard, PinKeyboardMsg, Point, Rect, TimerToken,
    TouchEvent};

const BOUNDS: Rect = Rect { x0: 0, y0: 0, x1: 240, y1: 454 };

fn grid() -> Grid {
    Grid::new(Rect::new(0, 240, 240, 454), 4, 3, 2)
}

fn center(r: Rect) -> Point {
    Point { x: (r.x0 + r.x1) / 2, y: (r.y0 + r.y1) / 2 }
}

fn tap(kp: &mut PinKeyboard, ctx: &mut EventCtx, p: Point) -> Option<PinKeyboardMsg> {
    let down = kp.event(ctx, &Event::Touch(TouchEvent::TouchStart(p)));
    assert!(down.is_none(), "a touch-down alone never completes a gesture");
    kp.event(ctx, &Event::Touch(TouchEvent::TouchEnd(p)))
}

fn digit_center(i: i32) -> Point {
    let cell = if i < 9 { i } else { i + 1 };
    center(grid().cell(cell))
}

fn new_placed(warning: Option<&str>, allow_cancel: bool) -> PinKeyboard {
    let mut kp = PinKeyboard::new(
        "Enter PIN".to_string(),
        "Up to 50 digits".to_string(),
        warning.map(|w| w.to_string()),
        allow_cancel,
    );
    kp.place(BOUNDS);
    kp
}

#[test]
fn control_state_follows_the_buffer() {
    let mut kp = new_placed(None, true);
    let mut ctx = EventCtx::new();

    // Empty buffer: erase hidden and disabled, cancel shown, confirm
    // disabled, all digits enabled.
    assert!(!kp.erase_btn.visible && !kp.erase_btn.enabled);
    assert!(kp.cancel_btn.visible && kp.cancel_btn.enabled);
    assert!(!kp.confirm_btn.enabled);
    assert!(kp.digit_btns.iter().all(|b| b.enabled && b.visible));
    let plan = kp.render();
    assert!(plan.cancel_shown && !plan.erase_shown && plan.indicator.is_none());

    // One digit: erase shown and enabled, confirm enabled, cancel hidden.
    assert!(tap(&mut kp, &mut ctx, digit_center(0)).is_none());
    assert_eq!(kp.pin().len(), 1);
    assert!(kp.erase_btn.visible && kp.erase_btn.enabled);
    assert!(!kp.cancel_btn.visible && !kp.cancel_btn.enabled);
    assert!(kp.confirm_btn.enabled);
    assert!(kp.digit_btns.iter().all(|b| b.enabled));
    let plan = kp.render();
    assert!(!plan.cancel_shown && plan.erase_shown && plan.indicator.is_some());

    // Fill to capacity: digits disabled, erase and confirm still usable.
    for _ in 1..50 {
        tap(&mut kp, &mut ctx, digit_center(0));
    }
    assert_eq!(kp.pin().len(), 50);
    assert!(kp.digit_btns.iter().all(|b| !b.enabled));
    assert!(kp.erase_btn.enabled && kp.confirm_btn.enabled);

    // Clicks on a disabled digit are inert.
    tap(&mut kp, &mut ctx, digit_center(3));
    assert_eq!(kp.pin().len(), 50);
}

#[test]
fn entered_digits_are_reported_verbatim() {
    let mut kp = new_placed(None, false);
    let mut ctx = EventCtx::new();
    let order = kp.digits_order();
    assert_eq!(order.len(), 10);
    tap(&mut kp, &mut ctx, digit_center(4));
    tap(&mut kp, &mut ctx, digit_center(9));
    tap(&mut kp, &mut ctx, digit_center(4));
    let expected: String = [order[4], order[9], order[4]].into_iter().collect();
    assert_eq!(kp.pin(), expected);
}

#[test]
fn erase_click_pops_and_long_press_clears() {
    let mut kp = new_placed(None, false);
    let mut ctx = EventCtx::new();
    tap(&mut kp, &mut ctx, digit_center(1));
    tap(&mut kp, &mut ctx, digit_center(2));
    assert_eq!(kp.pin().len(), 2);

    let erase_at = center(grid().row_col(3, 0));
    assert!(tap(&mut kp, &mut ctx, erase_at).is_none());
    assert_eq!(kp.pin().len(), 1, "an erase click removes one digit");

    // A held press: the hold timer fires before the finger lifts.
    let hold_id = ctx.next_timer_id;
    kp.event(&mut ctx, &Event::Touch(TouchEvent::TouchStart(erase_at)));
    let msg = kp.event(&mut ctx, &Event::Timer(TimerToken { id: hold_id }));
    assert!(msg.is_none());
    assert_eq!(kp.pin().len(), 0, "an erase long press clears the buffer");
    // The release after a long press does nothing further.
    tap(&mut kp, &mut ctx, digit_center(5));
    let after = kp.event(&mut ctx, &Event::Touch(TouchEvent::TouchEnd(erase_at)));
    assert!(after.is_none());
    assert_eq!(kp.pin().len(), 1);
}

#[test]
fn warning_is_replaced_for_good_when_its_timer_fires() {
    let mut kp = new_placed(Some("Wrong PIN"), false);
    let mut ctx = EventCtx::new();

    let warn_id = ctx.next_timer_id;
    kp.event(&mut ctx, &Event::Attach);
    let plan = kp.render();
    assert!(plan.warning_shown && !plan.major_prompt_shown && plan.minor_prompt_shown);

    // A stray timer for some other handle is ignored.
    kp.event(&mut ctx, &Event::Timer(TimerToken { id: warn_id + 77 }));
    assert!(kp.render().warning_shown);

    // The widget's own timer clears the warning permanently.
    kp.event(&mut ctx, &Event::Timer(TimerToken { id: warn_id }));
    let plan = kp.render();
    assert!(!plan.warning_shown && plan.major_prompt_shown && plan.minor_prompt_shown);

    // Still gone after the buffer fills and empties again.
    tap(&mut kp, &mut ctx, digit_center(0));
    tap(&mut kp, &mut ctx, center(grid().row_col(3, 0)));
    assert_eq!(kp.pin().len(), 0);
    assert!(!kp.render().warning_shown && kp.render().major_prompt_shown);
}

#[test]
fn repaint_is_requested_exactly_when_something_changes() {
    let mut kp = new_placed(Some("Try again"), true);
    let mut ctx = EventCtx::new();
    let warn_id = ctx.next_timer_id;
    kp.event(&mut ctx, &Event::Attach);
    assert!(!ctx.paint_requested, "attaching draws nothing by itself");
    kp.event(&mut ctx, &Event::Timer(TimerToken { id: warn_id + 5 }));
    assert!(!ctx.paint_requested, "a stray timer is ignored");
    kp.event(&mut ctx, &Event::Timer(TimerToken { id: warn_id }));
    assert!(ctx.paint_requested, "clearing the warning redraws the header");

    // A digit press alone draws nothing; the completing click does.
    let mut ctx = EventCtx::new();
    kp.event(&mut ctx, &Event::Touch(TouchEvent::TouchStart(digit_center(2))));
    assert!(!ctx.paint_requested);
    kp.event(&mut ctx, &Event::Touch(TouchEvent::TouchEnd(digit_center(2))));
    assert!(ctx.paint_requested);
}

#[test]
fn confirm_and_cancel_end_the_session() {
    let mut kp = new_placed(None, true);
    let mut ctx = EventCtx::new();
    let cancel_at = center(grid().row_col(3, 0));
    let confirm_at = center(grid().row_col(3, 2));

    // Cancel is live while the buffer is empty.
    let msg = tap(&mut kp, &mut ctx, cancel_at);
    assert!(matches!(msg, Some(PinKeyboardMsg::Cancelled)));

    // Confirm is live once a digit exists; no buffer change either way.
    tap(&mut kp, &mut ctx, digit_center(7));
    let msg = tap(&mut kp, &mut ctx, confirm_at);
    assert!(matches!(msg, Some(PinKeyboardMsg::Confirmed)));
    assert_eq!(kp.pin().len(), 1);
}

#[test]
fn overlapping_confirm_and_cancel_yield_confirm_only() {
    let mut kp = new_placed(None, true);
    let mut ctx = EventCtx::new();

    // Overlapping test geometry: both terminal controls live and on the
    // same region, so one touch lands on both.
    kp.cancel_btn.area = kp.confirm_btn.area;
    kp.cancel_btn.visible = true;
    kp.cancel_btn.enabled = true;
    kp.confirm_btn.visible = true;
    kp.confirm_btn.enabled = true;

    let p = center(kp.confirm_btn.area);
    let down = kp.event(&mut ctx, &Event::Touch(TouchEvent::TouchStart(p)));
    assert!(down.is_none());
    assert!(kp.confirm_btn.pressed && kp.cancel_btn.pressed, "both controls saw the press");
    let msg = kp.event(&mut ctx, &Event::Touch(TouchEvent::TouchEnd(p)));
    assert!(
        matches!(msg, Some(PinKeyboardMsg::Confirmed)),
        "exactly one message, confirm taking precedence"
    );
}
