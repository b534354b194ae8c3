//! The PIN text box: a bounded buffer of entered digits together with its
//! masked on-screen indicator.
//!
//! The buffer holds at most [`MAX_LENGTH`] characters; an append beyond
//! that is silently truncated (a defensive clamp — the keypad disables
//! digit input once full, so the path is normally unreachable).
//!
//! The indicator renders the buffer either as a row of mask dots capped
//! at [`MAX_VISIBLE_DOTS`] glyphs — with leading overflow and dimmed
//! glyphs signaling truncated history — or, while a touch is held inside
//! its area, as the trailing [`MAX_VISIBLE_DIGITS`]-character window of
//! the literal digits.

use vstd::prelude::*;

use crate::event::{Event, EventCtx, TouchEvent};
use crate::geometry::{Point, Rect};

verus! {

/// Capacity of the PIN buffer.
pub const MAX_LENGTH: usize = 50;

/// Most mask dots the indicator ever shows at once.
pub const MAX_VISIBLE_DOTS: usize = 18;

/// Most literal digits the reveal window ever shows at once.
pub const MAX_VISIBLE_DIGITS: usize = 18;

/// Side of one mask dot, in pixels.
pub const DOT_SIZE: i32 = 6;

/// Gap between neighbouring mask dots, in pixels.
pub const DOT_PADDING: i32 = 7;

/// Horizontal shift of the whole dot row used as a flicker cue near the
/// overflow boundary.
pub const TWITCH: i32 = 4;

/// Padding between the header area and its content.
pub const HEADER_PADDING_TOP: i32 = 4;

/// See [`HEADER_PADDING_TOP`].
pub const HEADER_PADDING_SIDE: i32 = 2;

/// See [`HEADER_PADDING_TOP`].
pub const HEADER_PADDING_BOTTOM: i32 = 4;

/// The glyphs a masked row is made of.
#[derive(Clone, Copy, PartialEq, Eq, Structural, Debug)]
pub enum DotKind {
    /// The small leading glyph: more history is hidden before this point.
    Small,
    /// The dimmed mask glyph at the overflow boundary.
    Dimmed,
    /// An ordinary mask dot standing for one entered digit.
    Normal,
}

/// One glyph of the masked row, at its screen position.
#[derive(Clone, Copy, PartialEq, Eq, Structural, Debug)]
pub struct Dot {
    pub kind: DotKind,
    pub x: i32,
    pub y: i32,
}

/// What one render pass of the indicator draws.
pub enum IndicatorRender {
    /// Reveal mode: the literal text window, left-aligned at the given
    /// point in a fixed-width style.
    Digits(String, Point),
    /// Masked mode: the dot row.
    Dots(Vec<Dot>),
}

/// How many glyphs a masked row for `n` entered digits holds.
pub open spec fn dot_count(n: int) -> int {
    if n <= MAX_VISIBLE_DOTS { n } else { MAX_VISIBLE_DOTS as int }
}

/// The glyph kind at index `i` of the masked row for `n` entered digits:
/// the small overflow glyph leads only past `MAX_VISIBLE_DOTS + 1`, the
/// dimmed glyph follows whenever some digit is hidden, the rest are
/// ordinary dots.
pub open spec fn spec_dot_kind(n: int, i: int) -> DotKind {
    if n > MAX_VISIBLE_DOTS + 1 && i == 0 {
        DotKind::Small
    } else if n > MAX_VISIBLE_DOTS && i == (if n > MAX_VISIBLE_DOTS + 1 { 1int } else { 0int }) {
        DotKind::Dimmed
    } else {
        DotKind::Normal
    }
}

/// The cosmetic jiggle: past the overflow boundary the whole row starts
/// shifted right by [`TWITCH`] on every second length.
pub open spec fn spec_jiggle(n: int) -> int {
    if n > MAX_VISIBLE_DOTS + 1 && (n + 1) % 2 == 0 { TWITCH as int } else { 0 }
}

/// Where the masked row starts and sits vertically: the left center of
/// the indicator's padded area.
pub open spec fn spec_dot_origin(area: Rect) -> Point {
    Point {
        x: (area.x0 + HEADER_PADDING_SIDE) as i32,
        y: (area.y0 + HEADER_PADDING_TOP + (area.spec_height() - HEADER_PADDING_TOP
            - HEADER_PADDING_BOTTOM) / 2) as i32,
    }
}

/// The whole masked row for `n` entered digits over `area`.
pub open spec fn spec_dots(n: int, area: Rect) -> Seq<Dot> {
    Seq::new(
        dot_count(n) as nat,
        |i: int| Dot {
            kind: spec_dot_kind(n, i),
            x: (spec_dot_origin(area).x + spec_jiggle(n) + i * (DOT_SIZE + DOT_PADDING)) as i32,
            y: spec_dot_origin(area).y,
        },
    )
}

/// The text shown in reveal mode: all of `s` when it fits, else its
/// trailing window of `MAX_VISIBLE_DIGITS` characters.
pub open spec fn reveal_window(s: Seq<char>) -> Seq<char> {
    if s.len() <= MAX_VISIBLE_DIGITS {
        s
    } else {
        s.skip(s.len() - MAX_VISIBLE_DIGITS)
    }
}

/// Appending one character to a sequence that already fills the reveal
/// window slides the window forward by exactly one position. This is a
/// fact about the window itself; at a buffer that is already at
/// [`MAX_LENGTH`] the capacity clamp absorbs the push, so no new
/// character arrives and nothing slides.
pub proof fn lemma_reveal_window_shift(s: Seq<char>, c: char)
    requires
        s.len() >= MAX_VISIBLE_DIGITS,
    ensures
        reveal_window(s.push(c)) == reveal_window(s).drop_first().push(c),
{
    assert(reveal_window(s.push(c)) =~= reveal_window(s).drop_first().push(c));
}

/// The reveal flag after a touch transition: set by a touch-down inside
/// `area`, cleared by any touch-up wherever it lands.
pub open spec fn reveal_after(revealed: bool, area: Rect, e: Event) -> bool {
    match e {
        Event::Touch(TouchEvent::TouchStart(p)) => revealed || area.spec_contains(p),
        Event::Touch(TouchEvent::TouchEnd(_)) => false,
        _ => revealed,
    }
}

/// Whether a touch transition redraws the indicator: a touch-down
/// landing inside its area, or a touch-up while it was revealed. Any
/// other event leaves the screen alone.
pub open spec fn reveal_repaints(revealed: bool, area: Rect, e: Event) -> bool {
    match e {
        Event::Touch(TouchEvent::TouchStart(p)) => area.spec_contains(p),
        Event::Touch(TouchEvent::TouchEnd(_)) => revealed,
        _ => false,
    }
}

pub struct PinDots {
    area: Rect,
    digits: String,
    display_digits: bool,
}

impl View for PinDots {
    type V = Seq<char>;

    /// A `PinDots` is abstractly the sequence of entered digits.
    closed spec fn view(&self) -> Seq<char> {
        self.digits@
    }
}

impl PinDots {
    /// The buffer never exceeds its capacity.
    pub open spec fn wf(&self) -> bool {
        self@.len() <= MAX_LENGTH
    }

    /// The screen region the indicator was placed into.
    pub closed spec fn spec_area(&self) -> Rect {
        self.area
    }

    /// Whether the indicator currently shows literal digits.
    pub closed spec fn spec_revealed(&self) -> bool {
        self.display_digits
    }

    pub fn new() -> (r: PinDots)
        ensures
            r@ == Seq::<char>::empty(),
            !r.spec_revealed(),
            r.spec_area() == (Rect { x0: 0, y0: 0, x1: 0, y1: 0 }),
            r.wf(),
    {
        PinDots { area: Rect::zero(), digits: String::new(), display_digits: false }
    }

    /// Caches the screen region the indicator occupies.
    pub fn place(&mut self, bounds: Rect)
        ensures
            final(self).spec_area() == bounds,
            final(self)@ == old(self)@,
            final(self).spec_revealed() == old(self).spec_revealed(),
    {
        self.area = bounds;
    }

    /// Number of entered digits.
    pub fn len(&self) -> (r: usize)
        ensures
            r == self@.len(),
    {
        self.digits.as_str().unicode_len()
    }

    pub fn is_empty(&self) -> (r: bool)
        ensures
            r == (self@.len() == 0),
    {
        self.digits.as_str().unicode_len() == 0
    }

    /// Full exactly at capacity.
    pub fn is_full(&self) -> (r: bool)
        ensures
            r == (self@.len() >= MAX_LENGTH),
    {
        self.digits.as_str().unicode_len() >= MAX_LENGTH
    }

    /// Appends `text`; whatever would not fit within [`MAX_LENGTH`] is
    /// silently dropped, never an error.
    pub fn push(&mut self, text: &str)
        requires
            old(self).wf(),
        ensures
            final(self).wf(),
            old(self)@.len() + text@.len() <= MAX_LENGTH ==> final(self)@ == old(self)@ + text@,
            old(self)@.len() + text@.len() > MAX_LENGTH ==> final(self)@ == old(self)@
                + text@.take(MAX_LENGTH - old(self)@.len()),
            final(self)@.len() == if old(self)@.len() + text@.len() <= MAX_LENGTH {
                old(self)@.len() + text@.len()
            } else {
                MAX_LENGTH as nat
            },
            final(self).spec_area() == old(self).spec_area(),
            final(self).spec_revealed() == old(self).spec_revealed(),
    {
        let len = self.digits.as_str().unicode_len();
        let n = text.unicode_len();
        if n <= MAX_LENGTH - len {
            self.digits.append(text);
        } else {
            let room = MAX_LENGTH - len;
            let fitting = text.substring_char(0, room);
            self.digits.append(fitting);
        }
    }

    /// Removes the last digit if there is one; reports whether a removal
    /// happened (the caller uses this to decide on a repaint).
    pub fn pop(&mut self) -> (r: bool)
        requires
            old(self).wf(),
        ensures
            r == (old(self)@.len() > 0),
            old(self)@.len() > 0 ==> final(self)@ == old(self)@.drop_last(),
            old(self)@.len() == 0 ==> final(self)@ == old(self)@,
            final(self).wf(),
            final(self).spec_area() == old(self).spec_area(),
            final(self).spec_revealed() == old(self).spec_revealed(),
    {
        let len = self.digits.as_str().unicode_len();
        if len == 0 {
            false
        } else {
            let shorter = self.digits.as_str().substring_char(0, len - 1).to_owned();
            self.digits = shorter;
            proof {
                assert(self@ =~= old(self)@.drop_last());
            }
            true
        }
    }

    /// Empties the buffer unconditionally.
    pub fn clear(&mut self)
        ensures
            final(self)@ == Seq::<char>::empty(),
            final(self).wf(),
            final(self).spec_area() == old(self).spec_area(),
            final(self).spec_revealed() == old(self).spec_revealed(),
    {
        self.digits = String::new();
    }

    /// The literal entered digits, as a read-only snapshot.
    pub fn pin(&self) -> (r: &str)
        ensures
            r@ == self@,
    {
        self.digits.as_str()
    }

    /// The footprint of the dot row: wide enough for the visible dots at
    /// fixed pitch, one dot high.
    pub fn size(&self) -> (r: Point)
        requires
            self.wf(),
        ensures
            r.y == DOT_SIZE,
            r.x == DOT_SIZE * dot_count(self@.len() as int) + DOT_PADDING * (
            if dot_count(self@.len() as int) > 0 {
                dot_count(self@.len() as int) - 1
            } else {
                0int
            }),
    {
        let len = self.digits.as_str().unicode_len();
        let ndots = if len < MAX_VISIBLE_DOTS {
            len
        } else {
            MAX_VISIBLE_DOTS
        };
        let gaps = if ndots > 0 {
            ndots - 1
        } else {
            0
        };
        let width = DOT_SIZE * (ndots as i32) + DOT_PADDING * (gaps as i32);
        Point { x: width, y: DOT_SIZE }
    }

    /// Handles a touch transition: touch-down inside the indicator turns
    /// the reveal mode on, any touch-up turns it off; either transition
    /// requests a repaint. The buffer itself never changes here.
    pub fn event(&mut self, ctx: &mut EventCtx, e: &Event)
        ensures
            final(self)@ == old(self)@,
            final(self).spec_area() == old(self).spec_area(),
            final(self).spec_revealed() == reveal_after(
                old(self).spec_revealed(),
                old(self).spec_area(),
                *e,
            ),
            final(ctx).next_timer_id == old(ctx).next_timer_id,
            final(ctx).paint_requested == (old(ctx).paint_requested || reveal_repaints(
                old(self).spec_revealed(),
                old(self).spec_area(),
                *e,
            )),
    {
        match *e {
            Event::Touch(TouchEvent::TouchStart(p)) => {
                if self.area.contains(p) {
                    self.display_digits = true;
                    ctx.request_paint();
                }
            },
            Event::Touch(TouchEvent::TouchEnd(_)) => {
                if self.display_digits {
                    self.display_digits = false;
                    ctx.request_paint();
                }
            },
            _ => {},
        }
    }

    /// Reveal mode: the literal text window, and where it starts.
    pub fn render_digits(&self) -> (r: (String, Point))
        requires
            self.wf(),
            self.spec_area().wf(),
            self.spec_area().spec_height() >= HEADER_PADDING_TOP + HEADER_PADDING_BOTTOM,
            self.spec_area().spec_width() >= 2 * HEADER_PADDING_SIDE,
        ensures
            r.0@ == reveal_window(self@),
            r.1 == spec_dot_origin(self.spec_area()),
    {
        let origin = self.dot_origin();
        let len = self.digits.as_str().unicode_len();
        if len <= MAX_VISIBLE_DIGITS {
            (self.digits.clone(), origin)
        } else {
            let offset = len - MAX_VISIBLE_DIGITS;
            let window = self.digits.as_str().substring_char(offset, len).to_owned();
            proof {
                assert(window@ =~= reveal_window(self@));
            }
            (window, origin)
        }
    }

    /// Masked mode: the dot row, exactly [`spec_dots`].
    pub fn render_dots(&self) -> (r: Vec<Dot>)
        requires
            self.wf(),
            self.spec_area().wf(),
            self.spec_area().spec_height() >= HEADER_PADDING_TOP + HEADER_PADDING_BOTTOM,
            self.spec_area().spec_width() >= 2 * HEADER_PADDING_SIDE,
        ensures
            r@ == spec_dots(self@.len() as int, self.spec_area()),
    {
        let ghost n = self@.len() as int;
        let origin = self.dot_origin();
        let len = self.digits.as_str().unicode_len();
        let dots_visible = if len < MAX_VISIBLE_DOTS {
            len
        } else {
            MAX_VISIBLE_DOTS
        };
        let step = DOT_SIZE + DOT_PADDING;

        let mut cursor_x = origin.x;
        if len > MAX_VISIBLE_DOTS + 1 && (len + 1) % 2 == 0 {
            cursor_x = cursor_x + TWITCH;
        }

        let mut out: Vec<Dot> = Vec::new();
        if len > MAX_VISIBLE_DOTS + 1 {
            out.push(Dot { kind: DotKind::Small, x: cursor_x, y: origin.y });
            cursor_x = cursor_x + step;
        }
        if len > MAX_VISIBLE_DOTS {
            out.push(Dot { kind: DotKind::Dimmed, x: cursor_x, y: origin.y });
            cursor_x = cursor_x + step;
        }
        while out.len() < dots_visible
            invariant
                self.wf(),
                self.spec_area().wf(),
                n == self@.len(),
                dots_visible == dot_count(n),
                origin == spec_dot_origin(self.spec_area()),
                step == DOT_SIZE + DOT_PADDING,
                out@.len() <= dots_visible,
                (n > MAX_VISIBLE_DOTS ==> out@.len() >= if n > MAX_VISIBLE_DOTS + 1 {
                    2int
                } else {
                    1int
                }),
                cursor_x == spec_dot_origin(self.spec_area()).x + spec_jiggle(n) + out@.len() * (
                DOT_SIZE + DOT_PADDING),
                forall|i: int| 0 <= i < out@.len() ==> out@[i] == spec_dots(n, self.spec_area())[i],
            decreases dots_visible - out@.len(),
        {
            proof {
                let l = out@.len() as int;
                assert(0 <= l * (DOT_SIZE + DOT_PADDING) <= 17 * (DOT_SIZE + DOT_PADDING))
                    by (nonlinear_arith)
                    requires 0 <= l <= 17;
                assert((l + 1) * (DOT_SIZE + DOT_PADDING) == l * (DOT_SIZE + DOT_PADDING) + (
                DOT_SIZE + DOT_PADDING)) by (nonlinear_arith);
            }
            out.push(Dot { kind: DotKind::Normal, x: cursor_x, y: origin.y });
            cursor_x = cursor_x + step;
        }
        proof {
            assert(out@ =~= spec_dots(n, self.spec_area()));
        }
        out
    }

    /// One render pass: the literal window while revealed, the masked
    /// row otherwise.
    pub fn render(&self) -> (r: IndicatorRender)
        requires
            self.wf(),
            self.spec_area().wf(),
            self.spec_area().spec_height() >= HEADER_PADDING_TOP + HEADER_PADDING_BOTTOM,
            self.spec_area().spec_width() >= 2 * HEADER_PADDING_SIDE,
        ensures
            self.spec_revealed() ==> (r matches IndicatorRender::Digits(s, p) && s@
                == reveal_window(self@) && p == spec_dot_origin(self.spec_area())),
            !self.spec_revealed() ==> (r matches IndicatorRender::Dots(v) && v@ == spec_dots(
                self@.len() as int,
                self.spec_area(),
            )),
    {
        if self.display_digits {
            let (text, origin) = self.render_digits();
            IndicatorRender::Digits(text, origin)
        } else {
            IndicatorRender::Dots(self.render_dots())
        }
    }

    /// Left center of the padded indicator area, where both render modes
    /// start drawing.
    fn dot_origin(&self) -> (r: Point)
        requires
            self.spec_area().wf(),
            self.spec_area().spec_height() >= HEADER_PADDING_TOP + HEADER_PADDING_BOTTOM,
            self.spec_area().spec_width() >= 2 * HEADER_PADDING_SIDE,
        ensures
            r == spec_dot_origin(self.spec_area()),
    {
        let padded = self.area.inset(HEADER_PADDING_TOP, HEADER_PADDING_SIDE, HEADER_PADDING_BOTTOM);
        padded.left_center()
    }
}

} // verus!
