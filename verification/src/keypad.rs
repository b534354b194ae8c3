//! The PIN keypad widget: owns the PIN buffer, its masked indicator, the
//! prompt and warning labels and all the buttons, routes events in a
//! fixed order, and emits the terminal outcome.

use vstd::prelude::*;

use crate::button::{button_after, clicks, long_presses, press_starts, Button, ButtonContent,
    ButtonMsg};
use crate::event::{Event, EventCtx, TimerToken, TouchEvent};
use crate::geometry::{Grid, Rect};
use crate::pin_dots::{reveal_after, reveal_repaints, reveal_window, spec_dots, IndicatorRender,
    PinDots, HEADER_PADDING_BOTTOM, HEADER_PADDING_SIDE, HEADER_PADDING_TOP, MAX_LENGTH};
use crate::shuffle::{digit_labels, shuffled_digits};

verus! {

/// Height of one button row, in pixels.
pub const BUTTON_HEIGHT: i32 = 52;

/// Gap between grid cells, in pixels.
pub const BUTTON_SPACING: i32 = 2;

/// Height of the four-row keypad grid under the header.
pub const KEYPAD_HEIGHT: i32 = 214;

/// How long a warning stays up before the minor prompt replaces it.
pub const WARNING_DURATION_MS: u32 = 2000;

/// Number of digit buttons.
pub const DIGIT_COUNT: usize = 10;

/// The terminal outcome the keypad reports to its owner.
pub enum PinKeyboardMsg {
    Confirmed,
    Cancelled,
}

pub struct PinKeyboard {
    pub allow_cancel: bool,
    pub major_prompt: String,
    pub minor_prompt: String,
    pub major_warning: Option<String>,
    pub textbox: PinDots,
    pub erase_btn: Button,
    pub cancel_btn: Button,
    pub confirm_btn: Button,
    pub digit_btns: Vec<Button>,
    pub warning_timer: Option<TimerToken>,
}

/// The digit a button's face shows.
pub open spec fn label_of(b: Button) -> char {
    match b.content {
        ButtonContent::Text(c) => c,
        ButtonContent::Icon => ' ',
    }
}

/// The faces of a row of buttons.
pub open spec fn labels_of(btns: Seq<Button>) -> Seq<char> {
    btns.map_values(|b: Button| label_of(b))
}

/// Whether `e` completes a click on the confirm button.
pub open spec fn confirm_fires(kp: PinKeyboard, e: Event) -> bool {
    clicks(kp.confirm_btn, e)
}

/// Whether `e` completes a click on the cancel button; confirm takes
/// precedence in the dispatch order.
pub open spec fn cancel_fires(kp: PinKeyboard, e: Event) -> bool {
    !confirm_fires(kp, e) && clicks(kp.cancel_btn, e)
}

/// Whether `e` completes a single click on erase (one digit removed).
pub open spec fn erase_pop_fires(kp: PinKeyboard, e: Event) -> bool {
    !confirm_fires(kp, e) && !cancel_fires(kp, e) && clicks(kp.erase_btn, e)
}

/// Whether `e` completes a long press on erase (buffer cleared).
pub open spec fn erase_clear_fires(kp: PinKeyboard, e: Event) -> bool {
    !confirm_fires(kp, e) && !cancel_fires(kp, e) && long_presses(kp.erase_btn, e)
}

/// Whether `e` clicks button `i` of the row and no earlier button of the
/// row clicks.
pub open spec fn digit_clicks_first(btns: Seq<Button>, e: Event, i: int) -> bool {
    &&& 0 <= i < btns.len()
    &&& clicks(btns[i], e)
    &&& forall|j: int| 0 <= j < i ==> !clicks(btns[j], e)
}

pub open spec fn first_digit_clicked(btns: Seq<Button>, e: Event) -> bool {
    exists|i: int| digit_clicks_first(btns, e, i)
}

/// Whether `e` clicks digit button `i`, no earlier control or digit
/// taking the event first.
pub open spec fn digit_fires(kp: PinKeyboard, e: Event, i: int) -> bool {
    &&& !confirm_fires(kp, e)
    &&& !cancel_fires(kp, e)
    &&& !erase_pop_fires(kp, e)
    &&& !erase_clear_fires(kp, e)
    &&& digit_clicks_first(kp.digit_btns@, e, i)
}

pub open spec fn some_digit_fires(kp: PinKeyboard, e: Event) -> bool {
    exists|i: int| digit_fires(kp, e, i)
}

/// Whether `e` mutates the buffer (erase or digit input).
pub open spec fn mutation_fires(kp: PinKeyboard, e: Event) -> bool {
    ||| erase_pop_fires(kp, e)
    ||| erase_clear_fires(kp, e)
    ||| some_digit_fires(kp, e)
}

/// The buffer's content after `e` is dispatched.
pub open spec fn buffer_after(kp: PinKeyboard, e: Event) -> Seq<char> {
    let s = kp.textbox@;
    if erase_pop_fires(kp, e) {
        if s.len() > 0 {
            s.drop_last()
        } else {
            s
        }
    } else if erase_clear_fires(kp, e) {
        Seq::<char>::empty()
    } else if some_digit_fires(kp, e) {
        let i = choose|i: int| digit_fires(kp, e, i);
        if s.len() < MAX_LENGTH {
            s.push(label_of(kp.digit_btns@[i]))
        } else {
            s
        }
    } else {
        s
    }
}

/// The warning label after `e`: cleared for good when the widget's own
/// warning timer fires; stray timer tokens are ignored.
pub open spec fn warning_after(
    warning: Option<String>,
    timer: Option<TimerToken>,
    e: Event,
) -> Option<String> {
    match e {
        Event::Timer(t) => if timer == Some(t) {
            None
        } else {
            warning
        },
        _ => warning,
    }
}

/// The warning timer handle after `e`: armed on attachment while a
/// warning is up.
pub open spec fn warning_timer_after(
    warning: Option<String>,
    timer: Option<TimerToken>,
    e: Event,
    fresh: TimerToken,
) -> Option<TimerToken> {
    match e {
        Event::Attach => if warning is Some {
            Some(fresh)
        } else {
            timer
        },
        _ => timer,
    }
}

/// Whether `e` is the widget's own warning timer firing, which clears
/// the warning and redraws the header.
pub open spec fn warning_clears(kp: PinKeyboard, e: Event) -> bool {
    match e {
        Event::Timer(t) => kp.warning_timer == Some(t),
        _ => false,
    }
}

/// How many one-shot timers dispatching `e` requests.
pub open spec fn timer_requests(kp: PinKeyboard, e: Event) -> int {
    match e {
        Event::Attach => if kp.major_warning is Some {
            1int
        } else {
            0int
        },
        Event::Touch(TouchEvent::TouchStart(_)) => if press_starts(kp.erase_btn, e) {
            1int
        } else {
            0int
        },
        _ => 0int,
    }
}

/// The derived control state: every enablement and visibility flag is a
/// pure function of the buffer and the session's cancel permission.
pub open spec fn controls_consistent(kp: PinKeyboard) -> bool {
    let empty = kp.textbox@.len() == 0;
    let full = kp.textbox@.len() >= MAX_LENGTH;
    &&& kp.erase_btn.visible == !empty
    &&& kp.erase_btn.enabled == !empty
    &&& kp.cancel_btn.visible == (empty && kp.allow_cancel)
    &&& kp.cancel_btn.enabled == empty
    &&& kp.confirm_btn.enabled == !empty
    &&& forall|i: int| 0 <= i < kp.digit_btns@.len() ==> kp.digit_btns@[i].enabled == !full
}

/// The header region of `bounds`: everything above the keypad grid.
pub open spec fn spec_header(bounds: Rect) -> Rect {
    Rect { x0: bounds.x0, y0: bounds.y0, x1: bounds.x1, y1: (bounds.y1 - KEYPAD_HEIGHT) as i32 }
}

/// The four-by-three button grid under the header.
pub open spec fn spec_grid(bounds: Rect) -> Grid {
    Grid {
        area: Rect {
            x0: bounds.x0,
            y0: (bounds.y1 - KEYPAD_HEIGHT) as i32,
            x1: bounds.x1,
            y1: bounds.y1,
        },
        rows: 4,
        cols: 3,
        spacing: BUTTON_SPACING,
    }
}

/// Grid position of digit button `i`: rows one to three in reading
/// order, the tenth digit in the middle of the bottom row (the reserved
/// erase and confirm cells on its sides are skipped).
pub open spec fn digit_cell(i: int) -> int {
    if i < 9 {
        i
    } else {
        i + 1
    }
}

/// What one render pass of the whole keypad draws. The prompts, warning
/// and cancel button live in the header and appear only while the buffer
/// is empty; once digits exist the indicator takes the header. The
/// confirm button and the digit grid are always drawn.
pub struct KeypadRender {
    pub warning_shown: bool,
    pub major_prompt_shown: bool,
    pub minor_prompt_shown: bool,
    pub cancel_shown: bool,
    pub erase_shown: bool,
    pub indicator: Option<IndicatorRender>,
}

impl PinKeyboard {
    /// Structural soundness: the buffer within capacity, ten digit
    /// buttons carrying one digit label each (a permutation of the ten),
    /// only erase configured for the hold gesture.
    pub open spec fn wf(&self) -> bool {
        &&& self.textbox.wf()
        &&& self.digit_btns@.len() == DIGIT_COUNT
        &&& labels_of(self.digit_btns@).to_multiset() == digit_labels().to_multiset()
        &&& forall|i: int| 0 <= i < self.digit_btns@.len() ==> (#[trigger] self.digit_btns@[i].content)
            is Text
        &&& forall|i: int|
            0 <= i < self.digit_btns@.len() ==> !(#[trigger] self.digit_btns@[i].wants_long_press)
        &&& self.erase_btn.wants_long_press
        &&& !self.cancel_btn.wants_long_press
        &&& !self.confirm_btn.wants_long_press
    }

    /// A fresh keypad: empty buffer, a newly shuffled digit layout,
    /// erase hidden, cancel shown only when the session permits it,
    /// confirm disabled.
    pub fn new(
        major_prompt: String,
        minor_prompt: String,
        major_warning: Option<String>,
        allow_cancel: bool,
    ) -> (r: PinKeyboard)
        ensures
            r.wf(),
            r.allow_cancel == allow_cancel,
            r.major_prompt == major_prompt,
            r.minor_prompt == minor_prompt,
            r.major_warning == major_warning,
            r.warning_timer is None,
            r.textbox@ == Seq::<char>::empty(),
            !r.textbox.spec_revealed(),
            r.erase_btn == (Button {
                area: Rect { x0: 0, y0: 0, x1: 0, y1: 0 },
                content: ButtonContent::Icon,
                enabled: false,
                visible: false,
                wants_long_press: true,
                pressed: false,
                hold_timer: None,
            }),
            r.cancel_btn == (Button {
                area: Rect { x0: 0, y0: 0, x1: 0, y1: 0 },
                content: ButtonContent::Icon,
                enabled: true,
                visible: allow_cancel,
                wants_long_press: false,
                pressed: false,
                hold_timer: None,
            }),
            r.confirm_btn == (Button {
                area: Rect { x0: 0, y0: 0, x1: 0, y1: 0 },
                content: ButtonContent::Icon,
                enabled: false,
                visible: true,
                wants_long_press: false,
                pressed: false,
                hold_timer: None,
            }),
            forall|i: int| 0 <= i < r.digit_btns@.len() ==> {
                let b = #[trigger] r.digit_btns@[i];
                b.enabled && b.visible && !b.pressed && b.hold_timer is None
            },
    {
        PinKeyboard {
            allow_cancel,
            major_prompt,
            minor_prompt,
            major_warning,
            textbox: PinDots::new(),
            erase_btn: Button::new(ButtonContent::Icon, false, false, true),
            cancel_btn: Button::new(ButtonContent::Icon, true, allow_cancel, false),
            confirm_btn: Button::new(ButtonContent::Icon, false, true, false),
            digit_btns: Self::generate_digit_buttons(),
            warning_timer: None,
        }
    }

    /// Ten enabled, visible buttons carrying a fresh random permutation
    /// of the digit labels.
    pub fn generate_digit_buttons() -> (r: Vec<Button>)
        ensures
            r@.len() == DIGIT_COUNT,
            labels_of(r@).to_multiset() == digit_labels().to_multiset(),
            forall|i: int| 0 <= i < r@.len() ==> (#[trigger] r@[i]) == (Button {
                area: Rect { x0: 0, y0: 0, x1: 0, y1: 0 },
                content: ButtonContent::Text(label_of(r@[i])),
                enabled: true,
                visible: true,
                wants_long_press: false,
                pressed: false,
                hold_timer: None,
            }),
    {
        let digits = shuffled_digits();
        let mut btns: Vec<Button> = Vec::new();
        let mut i: usize = 0;
        while i < digits.len()
            invariant
                digits@.len() == 10,
                i <= 10,
                btns@.len() == i,
                forall|j: int| 0 <= j < i ==> (#[trigger] btns@[j]) == (Button {
                    area: Rect { x0: 0, y0: 0, x1: 0, y1: 0 },
                    content: ButtonContent::Text(digits@[j]),
                    enabled: true,
                    visible: true,
                    wants_long_press: false,
                    pressed: false,
                    hold_timer: None,
                }),
            decreases digits@.len() - i,
        {
            btns.push(Button::new(ButtonContent::Text(digits[i]), true, true, false));
            i = i + 1;
        }
        proof {
            assert(labels_of(btns@) =~= digits@);
        }
        btns
    }

    /// The literal entered digits, a read-only snapshot.
    pub fn pin(&self) -> (r: &str)
        ensures
            r@ == self.textbox@,
    {
        self.textbox.pin()
    }

    /// The shuffled labels in grid reading order, for automated UI
    /// testing only.
    pub fn digits_order(&self) -> (r: Vec<char>)
        requires
            self.wf(),
        ensures
            r@ == labels_of(self.digit_btns@),
    {
        let mut out: Vec<char> = Vec::new();
        let mut i: usize = 0;
        while i < self.digit_btns.len()
            invariant
                self.wf(),
                i <= self.digit_btns@.len(),
                out@.len() == i,
                forall|j: int| 0 <= j < i ==> out@[j] == label_of(self.digit_btns@[j]),
            decreases self.digit_btns@.len() - i,
        {
            match self.digit_btns[i].content {
                ButtonContent::Text(c) => out.push(c),
                ButtonContent::Icon => out.push(' '),
            }
            i = i + 1;
        }
        proof {
            assert(out@ =~= labels_of(self.digit_btns@));
        }
        out
    }

    /// Recomputes every derived enablement and visibility flag from the
    /// buffer; called after each buffer mutation, never persisted.
    #[verifier::loop_isolation(false)]
    pub fn pin_modified(&mut self, ctx: &mut EventCtx)
        requires
            old(self).wf(),
        ensures
            final(self).wf(),
            controls_consistent(*final(self)),
            final(self).textbox == old(self).textbox,
            final(self).allow_cancel == old(self).allow_cancel,
            final(self).major_prompt == old(self).major_prompt,
            final(self).minor_prompt == old(self).minor_prompt,
            final(self).major_warning == old(self).major_warning,
            final(self).warning_timer == old(self).warning_timer,
            final(self).erase_btn == (Button {
                visible: old(self).textbox@.len() > 0,
                enabled: old(self).textbox@.len() > 0,
                ..old(self).erase_btn
            }),
            final(self).cancel_btn == (Button {
                visible: old(self).textbox@.len() == 0 && old(self).allow_cancel,
                enabled: old(self).textbox@.len() == 0,
                ..old(self).cancel_btn
            }),
            final(self).confirm_btn == (Button {
                enabled: old(self).textbox@.len() > 0,
                ..old(self).confirm_btn
            }),
            final(self).digit_btns@.len() == old(self).digit_btns@.len(),
            forall|i: int| 0 <= i < old(self).digit_btns@.len() ==> final(self).digit_btns@[i] == (
            Button { enabled: old(self).textbox@.len() < MAX_LENGTH, ..old(self).digit_btns@[i] }),
            final(ctx).next_timer_id == old(ctx).next_timer_id,
            final(ctx).paint_requested,
    {
        let is_full = self.textbox.is_full();
        let is_empty = self.textbox.is_empty();
        ctx.request_paint();

        let cancel_enabled = is_empty && self.allow_cancel;
        let mut i: usize = 0;
        while i < self.digit_btns.len()
            invariant
                i <= self.digit_btns@.len(),
                self.digit_btns@.len() == old(self).digit_btns@.len(),
                forall|j: int| 0 <= j < i ==> self.digit_btns@[j] == (Button {
                    enabled: !is_full,
                    ..old(self).digit_btns@[j]
                }),
                forall|j: int| i <= j < self.digit_btns@.len() ==> self.digit_btns@[j] == old(
                    self,
                ).digit_btns@[j],
                self.textbox == old(self).textbox,
                self.erase_btn == old(self).erase_btn,
                self.cancel_btn == old(self).cancel_btn,
                self.confirm_btn == old(self).confirm_btn,
                self.allow_cancel == old(self).allow_cancel,
                self.major_prompt == old(self).major_prompt,
                self.minor_prompt == old(self).minor_prompt,
                self.major_warning == old(self).major_warning,
                self.warning_timer == old(self).warning_timer,
            decreases self.digit_btns@.len() - i,
        {
            self.digit_btns[i].set_enabled(!is_full);
            i = i + 1;
        }
        self.erase_btn.set_visible(!is_empty);
        self.erase_btn.set_enabled(!is_empty);
        self.cancel_btn.set_visible(cancel_enabled);
        self.cancel_btn.set_enabled(is_empty);
        self.confirm_btn.set_enabled(!is_empty);
        proof {
            assert(labels_of(self.digit_btns@) =~= labels_of(old(self).digit_btns@));
        }
    }

    /// Splits the bounds into the header (prompts and indicator) and the
    /// four-by-three button grid, and places every child: erase and
    /// cancel share the bottom-left cell, confirm takes the bottom-right
    /// one, the digits fill the rest in reading order.
    #[verifier::loop_isolation(false)]
    pub fn place(&mut self, bounds: Rect)
        requires
            old(self).wf(),
            bounds.wf(),
            bounds.spec_height() >= KEYPAD_HEIGHT + HEADER_PADDING_TOP + HEADER_PADDING_BOTTOM,
            bounds.spec_width() >= 2 * HEADER_PADDING_SIDE,
            bounds.spec_width() >= 2 * BUTTON_SPACING,
        ensures
            final(self).wf(),
            final(self).textbox.spec_area() == spec_header(bounds),
            final(self).textbox@ == old(self).textbox@,
            final(self).textbox.spec_revealed() == old(self).textbox.spec_revealed(),
            final(self).erase_btn == (Button {
                area: spec_grid(bounds).spec_cell(3, 0),
                ..old(self).erase_btn
            }),
            final(self).cancel_btn == (Button {
                area: spec_grid(bounds).spec_cell(3, 0),
                ..old(self).cancel_btn
            }),
            final(self).confirm_btn == (Button {
                area: spec_grid(bounds).spec_cell(3, 2),
                ..old(self).confirm_btn
            }),
            final(self).digit_btns@.len() == old(self).digit_btns@.len(),
            forall|i: int| 0 <= i < old(self).digit_btns@.len() ==> final(self).digit_btns@[i] == (
            Button {
                area: spec_grid(bounds).spec_cell(digit_cell(i) / 3, digit_cell(i) % 3),
                ..old(self).digit_btns@[i]
            }),
            final(self).allow_cancel == old(self).allow_cancel,
            final(self).major_prompt == old(self).major_prompt,
            final(self).minor_prompt == old(self).minor_prompt,
            final(self).major_warning == old(self).major_warning,
            final(self).warning_timer == old(self).warning_timer,
    {
        let (header, keypad_area) = bounds.split_bottom(KEYPAD_HEIGHT);
        self.textbox.place(header);
        let grid = Grid::new(keypad_area, 4, 3, BUTTON_SPACING);
        let erase_cancel_area = grid.row_col(3, 0);
        self.erase_btn.place(erase_cancel_area);
        self.cancel_btn.place(erase_cancel_area);
        let confirm_area = grid.row_col(3, 2);
        self.confirm_btn.place(confirm_area);
        let mut i: usize = 0;
        while i < self.digit_btns.len()
            invariant
                i <= self.digit_btns@.len(),
                self.digit_btns@.len() == old(self).digit_btns@.len(),
                grid == spec_grid(bounds),
                grid.wf(),
                forall|j: int| 0 <= j < i ==> self.digit_btns@[j] == (Button {
                    area: spec_grid(bounds).spec_cell(digit_cell(j) / 3, digit_cell(j) % 3),
                    ..old(self).digit_btns@[j]
                }),
                forall|j: int| i <= j < self.digit_btns@.len() ==> self.digit_btns@[j] == old(
                    self,
                ).digit_btns@[j],
                self.textbox.spec_area() == spec_header(bounds),
                self.textbox@ == old(self).textbox@,
                self.textbox.spec_revealed() == old(self).textbox.spec_revealed(),
                self.erase_btn == (Button {
                    area: spec_grid(bounds).spec_cell(3, 0),
                    ..old(self).erase_btn
                }),
                self.cancel_btn == (Button {
                    area: spec_grid(bounds).spec_cell(3, 0),
                    ..old(self).cancel_btn
                }),
                self.confirm_btn == (Button {
                    area: spec_grid(bounds).spec_cell(3, 2),
                    ..old(self).confirm_btn
                }),
                self.allow_cancel == old(self).allow_cancel,
                self.major_prompt == old(self).major_prompt,
                self.minor_prompt == old(self).minor_prompt,
                self.major_warning == old(self).major_warning,
                self.warning_timer == old(self).warning_timer,
            decreases self.digit_btns@.len() - i,
        {
            let cell_index: i32 = if i < 9 {
                i as i32
            } else {
                (i as i32) + 1
            };
            let area = grid.cell(cell_index);
            self.digit_btns[i].place(area);
            i = i + 1;
        }
        proof {
            assert(labels_of(self.digit_btns@) =~= labels_of(old(self).digit_btns@));
        }
    }

    /// One render pass of the whole keypad: while the buffer is empty
    /// the header shows the warning (or the major prompt once the
    /// warning is gone), the minor prompt, and the cancel button; once
    /// digits exist the indicator takes the header instead.
    pub fn render(&self) -> (r: KeypadRender)
        requires
            self.wf(),
            self.textbox.spec_area().wf(),
            self.textbox.spec_area().spec_height() >= HEADER_PADDING_TOP + HEADER_PADDING_BOTTOM,
            self.textbox.spec_area().spec_width() >= 2 * HEADER_PADDING_SIDE,
        ensures
            r.warning_shown == (self.textbox@.len() == 0 && self.major_warning is Some),
            r.major_prompt_shown == (self.textbox@.len() == 0 && self.major_warning is None),
            r.minor_prompt_shown == (self.textbox@.len() == 0),
            r.cancel_shown == (self.textbox@.len() == 0 && self.cancel_btn.visible),
            r.erase_shown == self.erase_btn.visible,
            self.textbox@.len() == 0 ==> r.indicator is None,
            self.textbox@.len() > 0 ==> (r.indicator matches Some(ind) && {
                &&& self.textbox.spec_revealed() ==> (ind matches IndicatorRender::Digits(s, _) && s@
                    == reveal_window(self.textbox@))
                &&& !self.textbox.spec_revealed() ==> (ind matches IndicatorRender::Dots(v) && v@
                    == spec_dots(self.textbox@.len() as int, self.textbox.spec_area()))
            }),
    {
        let empty = self.textbox.is_empty();
        let indicator = if empty {
            None
        } else {
            Some(self.textbox.render())
        };
        KeypadRender {
            warning_shown: empty && self.major_warning.is_some(),
            major_prompt_shown: empty && self.major_warning.is_none(),
            minor_prompt_shown: empty,
            cancel_shown: empty && self.cancel_btn.visible,
            erase_shown: self.erase_btn.visible,
            indicator,
        }
    }

    /// Dispatches one event in the fixed order: warning bookkeeping,
    /// then the indicator's reveal handling, then confirm, cancel, erase
    /// and the digits. The first control that takes the event wins; at
    /// most one outcome message is ever produced, confirm before cancel.
    #[verifier::loop_isolation(false)]
    #[verifier::rlimit(100)]
    #[verifier::spinoff_prover]
    pub fn event(&mut self, ctx: &mut EventCtx, e: &Event) -> (r: Option<PinKeyboardMsg>)
        requires
            old(self).wf(),
            old(ctx).next_timer_id + 2 <= u32::MAX,
        ensures
            final(self).wf(),
            (r == Some(PinKeyboardMsg::Confirmed)) == confirm_fires(*old(self), *e),
            (r == Some(PinKeyboardMsg::Cancelled)) == cancel_fires(*old(self), *e),
            final(self).textbox@ == buffer_after(*old(self), *e),
            final(self).textbox.spec_revealed() == reveal_after(
                old(self).textbox.spec_revealed(),
                old(self).textbox.spec_area(),
                *e,
            ),
            final(self).textbox.spec_area() == old(self).textbox.spec_area(),
            final(self).major_warning == warning_after(
                old(self).major_warning,
                old(self).warning_timer,
                *e,
            ),
            final(self).warning_timer == warning_timer_after(
                old(self).major_warning,
                old(self).warning_timer,
                *e,
                TimerToken { id: old(ctx).next_timer_id },
            ),
            final(self).allow_cancel == old(self).allow_cancel,
            final(self).major_prompt == old(self).major_prompt,
            final(self).minor_prompt == old(self).minor_prompt,
            mutation_fires(*old(self), *e) ==> controls_consistent(*final(self)),
            !mutation_fires(*old(self), *e) ==> {
                &&& final(self).erase_btn.enabled == old(self).erase_btn.enabled
                &&& final(self).erase_btn.visible == old(self).erase_btn.visible
                &&& final(self).cancel_btn.enabled == old(self).cancel_btn.enabled
                &&& final(self).cancel_btn.visible == old(self).cancel_btn.visible
                &&& final(self).confirm_btn.enabled == old(self).confirm_btn.enabled
                &&& final(self).confirm_btn.visible == old(self).confirm_btn.visible
                &&& forall|i: int| 0 <= i < old(self).digit_btns@.len()
                    ==> final(self).digit_btns@[i].enabled == old(self).digit_btns@[i].enabled
            },
            final(self).digit_btns@.len() == old(self).digit_btns@.len(),
            forall|i: int| 0 <= i < old(self).digit_btns@.len()
                ==> (final(self).digit_btns@[i].area == old(self).digit_btns@[i].area
                && final(self).digit_btns@[i].content == old(self).digit_btns@[i].content
                && final(self).digit_btns@[i].visible == old(self).digit_btns@[i].visible),
            final(self).erase_btn.area == old(self).erase_btn.area,
            final(self).cancel_btn.area == old(self).cancel_btn.area,
            final(self).confirm_btn.area == old(self).confirm_btn.area,
            final(ctx).next_timer_id == old(ctx).next_timer_id + timer_requests(
                *old(self),
                *e,
            ),
            final(ctx).paint_requested == (old(ctx).paint_requested || warning_clears(
                *old(self),
                *e,
            ) || reveal_repaints(
                old(self).textbox.spec_revealed(),
                old(self).textbox.spec_area(),
                *e,
            ) || mutation_fires(*old(self), *e)),
    {
        let ghost fresh = TimerToken { id: old(ctx).next_timer_id };

        // Warning bookkeeping: arm the one-shot on attachment, clear the
        // warning for good when the widget's own timer fires.
        match *e {
            Event::Attach => {
                if self.major_warning.is_some() {
                    let t = ctx.request_timer(WARNING_DURATION_MS);
                    self.warning_timer = Some(t);
                }
            },
            Event::Timer(token) => {
                let own = match self.warning_timer {
                    Some(own) => own.id == token.id,
                    None => false,
                };
                if own {
                    self.major_warning = None;
                    ctx.request_paint();
                }
            },
            _ => {},
        }

        // Reveal-while-pressed handling, before any button sees the event.
        self.textbox.event(ctx, e);

        let confirm_msg = self.confirm_btn.event(ctx, e);
        if let Some(ButtonMsg::Clicked) = confirm_msg {
            return Some(PinKeyboardMsg::Confirmed);
        }

        let cancel_msg = self.cancel_btn.event(ctx, e);
        if let Some(ButtonMsg::Clicked) = cancel_msg {
            return Some(PinKeyboardMsg::Cancelled);
        }

        self.handle_erase_and_digits(ctx, e);
        proof {
            let kp = *old(self);
            assert(!confirm_fires(kp, *e));
            assert(!cancel_fires(kp, *e));
            if clicks(kp.erase_btn, *e) {
                assert(erase_pop_fires(kp, *e));
            } else if long_presses(kp.erase_btn, *e) {
                assert(erase_clear_fires(kp, *e));
            } else if first_digit_clicked(kp.digit_btns@, *e) {
                let b = choose|i: int| digit_clicks_first(kp.digit_btns@, *e, i);
                assert(digit_fires(kp, *e, b));
                assert(some_digit_fires(kp, *e));
                let a = choose|i: int| digit_fires(kp, *e, i);
                lemma_digit_clicks_first_unique(kp.digit_btns@, *e, b);
                assert(a == b);
            } else {
                assert(!some_digit_fires(kp, *e)) by {
                    if some_digit_fires(kp, *e) {
                        let a = choose|i: int| digit_fires(kp, *e, i);
                        assert(digit_clicks_first(kp.digit_btns@, *e, a));
                    }
                }
                assert(!mutation_fires(kp, *e));
            }
        }
        None
    }

    /// Offers the event to erase, then to each digit button in grid
    /// order, and performs the one resulting buffer mutation, if any:
    /// an erase click removes the last digit, an erase long press clears
    /// the buffer, a digit click appends that digit (clamped at
    /// capacity). After a mutation every derived flag is recomputed.
    #[verifier::loop_isolation(false)]
    #[verifier::rlimit(60)]
    fn handle_erase_and_digits(&mut self, ctx: &mut EventCtx, e: &Event)
        requires
            old(self).wf(),
            old(ctx).next_timer_id < u32::MAX,
        ensures
            final(self).wf(),
            final(self).textbox@ == {
                let s = old(self).textbox@;
                if clicks(old(self).erase_btn, *e) {
                    if s.len() > 0 {
                        s.drop_last()
                    } else {
                        s
                    }
                } else if long_presses(old(self).erase_btn, *e) {
                    Seq::<char>::empty()
                } else if first_digit_clicked(old(self).digit_btns@, *e) {
                    let i = choose|i: int| digit_clicks_first(old(self).digit_btns@, *e, i);
                    if s.len() < MAX_LENGTH {
                        s.push(label_of(old(self).digit_btns@[i]))
                    } else {
                        s
                    }
                } else {
                    s
                }
            },
            final(self).textbox.spec_revealed() == old(self).textbox.spec_revealed(),
            final(self).textbox.spec_area() == old(self).textbox.spec_area(),
            local_mutation(*old(self), *e) ==> controls_consistent(*final(self)),
            !local_mutation(*old(self), *e) ==> {
                &&& final(self).textbox == old(self).textbox
                &&& final(self).erase_btn.enabled == old(self).erase_btn.enabled
                &&& final(self).erase_btn.visible == old(self).erase_btn.visible
                &&& final(self).cancel_btn == old(self).cancel_btn
                &&& final(self).confirm_btn == old(self).confirm_btn
                &&& forall|i: int| 0 <= i < old(self).digit_btns@.len()
                    ==> final(self).digit_btns@[i].enabled == old(self).digit_btns@[i].enabled
            },
            final(self).digit_btns@.len() == old(self).digit_btns@.len(),
            forall|i: int| 0 <= i < old(self).digit_btns@.len()
                ==> (final(self).digit_btns@[i].area == old(self).digit_btns@[i].area
                && final(self).digit_btns@[i].content == old(self).digit_btns@[i].content
                && final(self).digit_btns@[i].visible == old(self).digit_btns@[i].visible),
            final(self).erase_btn.area == old(self).erase_btn.area,
            final(self).cancel_btn.area == old(self).cancel_btn.area,
            final(self).confirm_btn.area == old(self).confirm_btn.area,
            final(self).cancel_btn.content == old(self).cancel_btn.content,
            final(self).confirm_btn.content == old(self).confirm_btn.content,
            final(self).erase_btn.content == old(self).erase_btn.content,
            final(self).allow_cancel == old(self).allow_cancel,
            final(self).major_prompt == old(self).major_prompt,
            final(self).minor_prompt == old(self).minor_prompt,
            final(self).major_warning == old(self).major_warning,
            final(self).warning_timer == old(self).warning_timer,
            final(ctx).next_timer_id == old(ctx).next_timer_id + (
            if press_starts(old(self).erase_btn, *e) {
                1int
            } else {
                0int
            }),
            final(ctx).paint_requested == (old(ctx).paint_requested || local_mutation(
                *old(self),
                *e,
            )),
    {
        let ghost fresh = TimerToken { id: old(ctx).next_timer_id };

        match self.erase_btn.event(ctx, e) {
            Some(ButtonMsg::Clicked) => {
                let removed = self.textbox.pop();
                if removed {
                    ctx.request_paint();
                }
                self.pin_modified(ctx);
                return;
            },
            Some(ButtonMsg::LongPressed) => {
                self.textbox.clear();
                ctx.request_paint();
                self.pin_modified(ctx);
                return;
            },
            None => {},
        }

        let ghost mid = *self;
        let ghost mid_ctx = *ctx;
        let mut i: usize = 0;
        while i < self.digit_btns.len()
            invariant
                i <= self.digit_btns@.len(),
                self.digit_btns@.len() == old(self).digit_btns@.len(),
                forall|j: int| 0 <= j < i ==> !clicks(old(self).digit_btns@[j], *e),
                forall|j: int| 0 <= j < i ==> self.digit_btns@[j] == button_after(
                    old(self).digit_btns@[j],
                    *e,
                    fresh,
                ),
                forall|j: int| i <= j < self.digit_btns@.len() ==> self.digit_btns@[j] == old(
                    self,
                ).digit_btns@[j],
                self.textbox == mid.textbox,
                self.erase_btn == mid.erase_btn,
                self.cancel_btn == mid.cancel_btn,
                self.confirm_btn == mid.confirm_btn,
                self.allow_cancel == mid.allow_cancel,
                self.major_prompt == mid.major_prompt,
                self.minor_prompt == mid.minor_prompt,
                self.major_warning == mid.major_warning,
                self.warning_timer == mid.warning_timer,
                *ctx == mid_ctx,
            decreases self.digit_btns@.len() - i,
        {
            let mut b = self.digit_btns[i];
            let msg = b.event(ctx, e);
            self.digit_btns[i] = b;
            if let Some(ButtonMsg::Clicked) = msg {
                if let ButtonContent::Text(c) = b.content {
                    proof {
                        broadcast use vstd::seq_lib::group_to_multiset_ensures;

                        assert(digit_clicks_first(old(self).digit_btns@, *e, i as int));
                        lemma_digit_clicks_first_unique(old(self).digit_btns@, *e, i as int);
                        let lbls = labels_of(old(self).digit_btns@);
                        assert(0 <= i < lbls.len() && lbls[i as int] == c);
                        assert(lbls.contains(c));
                        assert(lbls.to_multiset().count(c) > 0);
                        assert(digit_labels().to_multiset().count(c) > 0);
                        assert(digit_labels().contains(c));
                    }
                    let s = digit_string(c);
                    self.textbox.push(s.as_str());
                    ctx.request_paint();
                    proof {
                        if mid.textbox@.len() < MAX_LENGTH {
                            assert(self.textbox@ =~= mid.textbox@.push(c));
                        } else {
                            assert(self.textbox@ =~= mid.textbox@);
                        }
                        assert forall|k: int| 0 <= k < self.digit_btns@.len() implies label_of(
                            #[trigger] self.digit_btns@[k],
                        ) == label_of(old(self).digit_btns@[k]) by {}
                        assert(labels_of(self.digit_btns@) =~= labels_of(old(self).digit_btns@));
                    }
                    self.pin_modified(ctx);
                    return;
                }
            }
            i = i + 1;
        }
        proof {
            assert(!first_digit_clicked(old(self).digit_btns@, *e));
            assert forall|k: int| 0 <= k < self.digit_btns@.len() implies label_of(
                #[trigger] self.digit_btns@[k],
            ) == label_of(old(self).digit_btns@[k]) by {}
            assert(labels_of(self.digit_btns@) =~= labels_of(old(self).digit_btns@));
        }
    }
}

/// Everything the erase and digit stage can do to the buffer.
pub open spec fn local_mutation(kp: PinKeyboard, e: Event) -> bool {
    ||| clicks(kp.erase_btn, e)
    ||| long_presses(kp.erase_btn, e)
    ||| first_digit_clicked(kp.digit_btns@, e)
}

/// Once the warning is gone it is gone for good: no later event of any
/// kind brings it back.
pub proof fn lemma_warning_stays_cleared(timer: Option<TimerToken>, e: Event)
    ensures
        warning_after(None, timer, e) is None,
{
}

/// At most one outcome leaves the dispatcher per event, and confirm
/// takes precedence: whenever both the confirm and the cancel region
/// would click, only `Confirmed` is reported.
pub proof fn lemma_single_outcome(kp: PinKeyboard, e: Event)
    ensures
        !(confirm_fires(kp, e) && cancel_fires(kp, e)),
        clicks(kp.confirm_btn, e) && clicks(kp.cancel_btn, e) ==> confirm_fires(kp, e)
            && !cancel_fires(kp, e),
{
}

/// A first-clicking index is unique: an earlier clicking button would
/// have taken the event first.
proof fn lemma_digit_clicks_first_unique(btns: Seq<Button>, e: Event, i: int)
    requires
        digit_clicks_first(btns, e, i),
    ensures
        forall|j: int| digit_clicks_first(btns, e, j) ==> j == i,
{
    assert forall|j: int| digit_clicks_first(btns, e, j) implies j == i by {
        if j < i {
            assert(!clicks(btns[j], e));
        }
        if i < j {
            assert(!clicks(btns[i], e));
        }
    }
}

/// The one-character string of a digit label.
fn digit_string(c: char) -> (r: String)
    requires
        digit_labels().contains(c),
    ensures
        r@ == seq![c],
{
    proof {
        reveal_strlit("0");
        reveal_strlit("1");
        reveal_strlit("2");
        reveal_strlit("3");
        reveal_strlit("4");
        reveal_strlit("5");
        reveal_strlit("6");
        reveal_strlit("7");
        reveal_strlit("8");
        reveal_strlit("9");
    }
    let s: &str = if c == '0' {
        "0"
    } else if c == '1' {
        "1"
    } else if c == '2' {
        "2"
    } else if c == '3' {
        "3"
    } else if c == '4' {
        "4"
    } else if c == '5' {
        "5"
    } else if c == '6' {
        "6"
    } else if c == '7' {
        "7"
    } else if c == '8' {
        "8"
    } else {
        "9"
    };
    proof {
        let i = choose|i: int| 0 <= i < digit_labels().len() && digit_labels()[i] == c;
        assert(s@ =~= seq![c]);
    }
    s.to_owned()
}

} // verus!
