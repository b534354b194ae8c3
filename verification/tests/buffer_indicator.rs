//! Behaviour of the PIN buffer and its masked indicator.

use pin_keyboard::{DotKind, EventCtx, IndicatorRender, PinDots, Rect, MAX_LENGTH};

fn placed_dots() -> PinDots {
    let mut d = PinDots::new();
    d.place(Rect::new(0, 0, 240, 240));
    d
}

fn push_n(d: &mut PinDots, n: usize) {
    for _ in 0..n {
        d.push("7");
    }
}

fn dots_of(d: &PinDots) -> Vec<pin_keyboard::Dot> {
    d.render_dots()
}

#[test]
fn len_tracks_net_effect_of_operations() {
    let mut d = PinDots::new();
    assert!(d.is_empty());
    assert_eq!(d.len(), 0);
    d.push("1");
    d.push("2");
    d.push("3");
    assert_eq!(d.len(), 3);
    assert!(d.pop());
    assert_eq!(d.len(), 2);
    assert_eq!(d.pin(), "12");
    d.clear();
    assert_eq!(d.len(), 0);
    assert!(!d.pop(), "pop on an empty buffer must be a no-op returning false");
    assert_eq!(d.len(), 0);
}

#[test]
fn push_beyond_capacity_truncates_to_fifty() {
    let mut d = PinDots::new();
    let sixty: String = "123456789012345678901234567890123456789012345678901234567890".into();
    assert_eq!(sixty.len(), 60);
    d.push(&sixty);
    assert_eq!(d.len(), MAX_LENGTH);
    assert!(d.is_full());
    assert_eq!(d.pin(), &sixty[..50]);
    d.push("9");
    assert_eq!(d.len(), MAX_LENGTH, "a full buffer absorbs pushes silently");
}

#[test]
fn dot_row_footprint_is_dots_plus_gaps() {
    let mut d = PinDots::new();
    let empty = d.size();
    assert_eq!((empty.x, empty.y), (0, 6));
    push_n(&mut d, 3);
    let small = d.size();
    assert_eq!(small.x, 6 * 3 + 7 * 2);
    // The footprint is capped at the visible-dot maximum.
    push_n(&mut d, 40);
    let capped = d.size();
    assert_eq!(capped.x, 6 * 18 + 7 * 17);
}

#[test]
fn masked_row_up_to_eighteen_shows_one_dot_per_digit() {
    for n in 0..=18usize {
        let mut d = placed_dots();
        push_n(&mut d, n);
        let dots = dots_of(&d);
        assert_eq!(dots.len(), n);
        assert!(dots.iter().all(|g| g.kind == DotKind::Normal));
    }
}

#[test]
fn masked_row_at_nineteen_is_dimmed_plus_seventeen() {
    let mut d = placed_dots();
    push_n(&mut d, 19);
    let dots = dots_of(&d);
    assert_eq!(dots.len(), 18);
    assert_eq!(dots[0].kind, DotKind::Dimmed);
    assert!(dots.iter().skip(1).all(|g| g.kind == DotKind::Normal));
    assert!(dots.iter().all(|g| g.kind != DotKind::Small), "no overflow glyph at nineteen");
}

#[test]
fn masked_row_at_twenty_is_small_dimmed_plus_sixteen() {
    let mut d = placed_dots();
    push_n(&mut d, 20);
    let dots = dots_of(&d);
    assert_eq!(dots.len(), 18);
    assert_eq!(dots[0].kind, DotKind::Small);
    assert_eq!(dots[1].kind, DotKind::Dimmed);
    assert!(dots.iter().skip(2).all(|g| g.kind == DotKind::Normal));
}

#[test]
fn masked_row_is_capped_at_full_capacity() {
    let mut d = placed_dots();
    push_n(&mut d, 50);
    let dots = dots_of(&d);
    assert_eq!(dots.len(), 18);
    assert_eq!(dots[0].kind, DotKind::Small);
    assert_eq!(dots[1].kind, DotKind::Dimmed);
}

#[test]
fn dot_row_pitch_and_jiggle() {
    // Twenty digits: twenty-one is odd, so the row starts unshifted.
    let mut d = placed_dots();
    push_n(&mut d, 20);
    let dots = dots_of(&d);
    for (i, g) in dots.iter().enumerate() {
        assert_eq!(g.x, 2 + (i as i32) * 13);
        assert_eq!(g.y, 120);
    }
    // Twenty-one digits: twenty-two is even, the whole row jiggles right.
    let mut d = placed_dots();
    push_n(&mut d, 21);
    let dots = dots_of(&d);
    for (i, g) in dots.iter().enumerate() {
        assert_eq!(g.x, 2 + 4 + (i as i32) * 13);
    }
}

#[test]
fn reveal_shows_short_pin_in_full() {
    let mut d = placed_dots();
    d.push("12345");
    let (text, _origin) = d.render_digits();
    assert_eq!(text, "12345");
}

#[test]
fn reveal_shows_trailing_window_and_slides_by_one() {
    let mut d = placed_dots();
    let full = "1234567890123456789012345";
    d.push(full);
    assert_eq!(d.len(), 25);
    let (text, _) = d.render_digits();
    assert_eq!(text.len(), 18);
    assert_eq!(text, &full[full.len() - 18..]);
    d.push("6");
    let (shifted, _) = d.render_digits();
    assert_eq!(shifted.len(), 18);
    assert_eq!(&shifted[..17], &text[1..], "one append slides the window by one");
    assert!(shifted.ends_with('6'));
}

#[test]
fn repaint_follows_reveal_transitions() {
    let mut d = placed_dots();
    d.push("12");
    let inside = pin_keyboard::Point { x: 10, y: 10 };
    let outside = pin_keyboard::Point { x: 1000, y: 1000 };
    let start = |p| pin_keyboard::Event::Touch(pin_keyboard::TouchEvent::TouchStart(p));
    let end = |p| pin_keyboard::Event::Touch(pin_keyboard::TouchEvent::TouchEnd(p));

    // A touch-down outside the indicator changes nothing on screen.
    let mut ctx = EventCtx::new();
    d.event(&mut ctx, &start(outside));
    assert!(!ctx.paint_requested);

    // A touch-down inside turns the reveal on and redraws.
    let mut ctx = EventCtx::new();
    d.event(&mut ctx, &start(inside));
    assert!(ctx.paint_requested);

    // The touch-up ends the reveal and redraws because it was on.
    let mut ctx = EventCtx::new();
    d.event(&mut ctx, &end(outside));
    assert!(ctx.paint_requested);

    // A touch-up with nothing revealed redraws nothing.
    let mut ctx = EventCtx::new();
    d.event(&mut ctx, &end(outside));
    assert!(!ctx.paint_requested);
}

#[test]
fn reveal_flag_follows_touch_down_and_up() {
    let mut d = placed_dots();
    d.push("44");
    let mut ctx = EventCtx::new();
    let inside = pin_keyboard::Point { x: 10, y: 10 };
    let outside = pin_keyboard::Point { x: 1000, y: 1000 };
    d.event(&mut ctx, &pin_keyboard::Event::Touch(pin_keyboard::TouchEvent::TouchStart(inside)));
    match d.render() {
        IndicatorRender::Digits(s, _) => assert_eq!(s, "44"),
        IndicatorRender::Dots(_) => panic!("expected reveal mode after touch-down inside"),
    }
    // Release anywhere ends the reveal.
    d.event(&mut ctx, &pin_keyboard::Event::Touch(pin_keyboard::TouchEvent::TouchEnd(outside)));
    match d.render() {
        IndicatorRender::Digits(_, _) => panic!("expected masked mode after touch-up"),
        IndicatorRender::Dots(v) => assert_eq!(v.len(), 2),
    }
}
