use vstd::prelude::*;

use vstd::string::StringExecFns;

use crate::button::ButtonMsg;
use crate::component::{Component, Pad};
use crate::display::{DisplayList, Draw, Font};
use crate::event::{Event, EventCtx};
use crate::geometry::{Point, Rect};
use crate::keypad::{ButtonPos, KeyButton};
use crate::numfmt::{digit_str, spec_digit_char};
use crate::theme;

verus! {

broadcast use
    crate::keypad::lemma_key_event_spec,
    crate::keypad::lemma_key_place_spec,
    crate::component::Pad::lemma_pad_place_spec;

/// What the PIN entry page reports: the entered PIN was confirmed, or the
/// flow was cancelled.
#[derive(Clone, Copy, PartialEq, Eq, Structural, Debug)]
pub enum PinPageMsg {
    Confirmed,
    Cancelled,
}

/// The PIN buffer is bounded like every buffer on the device.
pub const MAX_PIN_LENGTH: usize = 50;

/// PIN entry on two-button hardware: digits are keyed in by the host's
/// keypad logic through `push_digit` (in shuffled order when `shuffle` is
/// set, an ordering the host supplies); the left key cancels when
/// cancelling is allowed, the right key confirms.
pub struct PinPage {
    prompt: String,
    subprompt: String,
    allow_cancel: bool,
    shuffle: bool,
    pin: String,
    pad: Pad,
    cancel: KeyButton,
    confirm: KeyButton,
}

impl PinPage {
    pub closed spec fn spec_prompt(&self) -> Seq<char> {
        self.prompt@
    }

    pub closed spec fn spec_subprompt(&self) -> Seq<char> {
        self.subprompt@
    }

    pub closed spec fn spec_allow_cancel(&self) -> bool {
        self.allow_cancel
    }

    pub closed spec fn spec_shuffle(&self) -> bool {
        self.shuffle
    }

    pub closed spec fn spec_pin(&self) -> Seq<char> {
        self.pin@
    }

    pub closed spec fn spec_cancel(&self) -> KeyButton {
        self.cancel
    }

    pub closed spec fn spec_confirm(&self) -> KeyButton {
        self.confirm
    }

    pub fn new(prompt: String, subprompt: String, allow_cancel: bool, shuffle: bool) -> (r:
        PinPage)
        ensures
            r.inv(),
            r.spec_prompt() == prompt@,
            r.spec_subprompt() == subprompt@,
            r.spec_allow_cancel() == allow_cancel,
            r.spec_shuffle() == shuffle,
            r.spec_pin() == Seq::<char>::empty(),
    {
        proof {
            reveal_strlit("CANCEL");
            reveal_strlit("ENTER");
        }
        let pin = String::new();
        proof {
            assert(pin@ =~= Seq::<char>::empty());
        }
        PinPage {
            prompt,
            subprompt,
            allow_cancel,
            shuffle,
            pin,
            pad: Pad::with_background(theme::bg()),
            cancel: KeyButton::with_text(
                ButtonPos::Left,
                "CANCEL".to_owned(),
                theme::button_cancel(),
            ),
            confirm: KeyButton::with_text(
                ButtonPos::Right,
                "ENTER".to_owned(),
                theme::button_default(),
            ),
        }
    }

    /// The PIN entered so far.
    pub fn pin(&self) -> (r: &str)
        ensures
            r@ == self.spec_pin(),
    {
        self.pin.as_str()
    }

    /// Key one digit into the PIN buffer: appended exactly when the buffer
    /// is not yet full.
    pub fn push_digit(&mut self, d: u8) -> (ok: bool)
        requires
            old(self).inv(),
            d <= 9,
        ensures
            final(self).inv(),
            ok == (old(self).spec_pin().len() < MAX_PIN_LENGTH),
            ok ==> final(self).spec_pin() == old(self).spec_pin().push(spec_digit_char(d as nat)),
            !ok ==> final(self).spec_pin() == old(self).spec_pin(),
            final(self).spec_prompt() == old(self).spec_prompt(),
            final(self).spec_subprompt() == old(self).spec_subprompt(),
            final(self).spec_allow_cancel() == old(self).spec_allow_cancel(),
            final(self).spec_shuffle() == old(self).spec_shuffle(),
    {
        let len = self.pin.as_str().unicode_len();
        if len < MAX_PIN_LENGTH {
            self.pin.append(digit_str(d));
            true
        } else {
            false
        }
    }

    /// Drop the last keyed digit, if any.
    pub fn pop_digit(&mut self)
        requires
            old(self).inv(),
        ensures
            final(self).inv(),
            old(self).spec_pin().len() > 0 ==> final(self).spec_pin() == old(
                self,
            ).spec_pin().drop_last(),
            old(self).spec_pin().len() == 0 ==> final(self).spec_pin() == old(self).spec_pin(),
            final(self).spec_prompt() == old(self).spec_prompt(),
            final(self).spec_subprompt() == old(self).spec_subprompt(),
            final(self).spec_allow_cancel() == old(self).spec_allow_cancel(),
            final(self).spec_shuffle() == old(self).spec_shuffle(),
    {
        let len = self.pin.as_str().unicode_len();
        if len > 0 {
            let shorter = self.pin.as_str().substring_char(0, len - 1).to_owned();
            proof {
                assert(self.pin@.subrange(0, self.pin@.len() - 1) =~= self.pin@.drop_last());
            }
            self.pin = shorter;
        }
    }
}

impl Component for PinPage {
    type Msg = PinPageMsg;

    closed spec fn inv(&self) -> bool {
        self.pin@.len() <= MAX_PIN_LENGTH && self.cancel.inv() && self.confirm.inv()
            && self.cancel.spec_pos() == ButtonPos::Left && self.confirm.spec_pos()
            == ButtonPos::Right
    }

    closed spec fn place_spec(&self, bounds: Rect) -> (PinPage, Rect) {
        let th: int = Font::Bold.spec_line_height() + 2;
        let bh: int = if bounds.spec_height() < th {
            bounds.spec_height()
        } else {
            th
        };
        let button_area = bounds.spec_split_bottom(bh).1;
        (
            PinPage {
                pad: self.pad.place_spec(bounds),
                cancel: self.cancel.place_spec(button_area).0,
                confirm: self.confirm.place_spec(button_area).0,
                ..*self
            },
            bounds,
        )
    }

    fn place(&mut self, bounds: Rect) -> (r: Rect) {
        let th = Font::Bold.line_height() + 2;
        let h = bounds.height();
        let cut = if h < th {
            h
        } else {
            th
        };
        let split = bounds.split_bottom(cut);
        self.pad.place(bounds);
        self.cancel.place(split.1);
        self.confirm.place(split.1);
        bounds
    }

    proof fn lemma_place_idempotent(&self, bounds: Rect) {
        let th: int = Font::Bold.spec_line_height() + 2;
        let bh: int = if bounds.spec_height() < th {
            bounds.spec_height()
        } else {
            th
        };
        let button_area = bounds.spec_split_bottom(bh).1;
        self.cancel.lemma_place_idempotent(button_area);
        self.confirm.lemma_place_idempotent(button_area);
    }

    closed spec fn event_spec(&self, event: Event) -> (PinPage, Option<PinPageMsg>, bool) {
        let cstep = if self.allow_cancel {
            self.cancel.event_spec(event)
        } else {
            (self.cancel, None, false)
        };
        if self.allow_cancel && cstep.1 == Some(ButtonMsg::Clicked) {
            ((PinPage { cancel: cstep.0, ..*self }), Some(PinPageMsg::Cancelled), cstep.2)
        } else {
            let kstep = self.confirm.event_spec(event);
            (
                (PinPage { cancel: cstep.0, confirm: kstep.0, ..*self }),
                if kstep.1 == Some(ButtonMsg::Clicked) {
                    Some(PinPageMsg::Confirmed)
                } else {
                    None
                },
                cstep.2 || kstep.2,
            )
        }
    }

    fn event(&mut self, ctx: &mut EventCtx, event: Event) -> (m: Option<PinPageMsg>) {
        if self.allow_cancel {
            if self.cancel.event(ctx, event) == Some(ButtonMsg::Clicked) {
                return Some(PinPageMsg::Cancelled);
            }
        }
        if self.confirm.event(ctx, event) == Some(ButtonMsg::Clicked) {
            return Some(PinPageMsg::Confirmed);
        }
        None
    }

    closed spec fn paint_spec(&self) -> Seq<Draw> {
        self.pad.paint_spec() + seq![
            Draw::Text {
                baseline: Point { x: 0, y: 10 },
                text: self.prompt@,
                font: Font::Bold,
                fg: theme::spec_fg(),
                bg: theme::spec_bg(),
            },
            Draw::Text {
                baseline: Point { x: 0, y: 26 },
                text: self.subprompt@,
                font: Font::Normal,
                fg: theme::spec_fg(),
                bg: theme::spec_bg(),
            },
            Draw::Text {
                baseline: Point { x: 0, y: 50 },
                text: self.pin@,
                font: Font::Mono,
                fg: theme::spec_fg(),
                bg: theme::spec_bg(),
            },
        ] + (if self.spec_allow_cancel() {
            self.cancel.paint_spec()
        } else {
            Seq::empty()
        }) + self.confirm.paint_spec()
    }

    fn paint(&self, d: &mut DisplayList) {
        self.pad.paint(d);
        d.text(Point::new(0, 10), self.prompt.as_str(), Font::Bold, theme::fg(), theme::bg());
        d.text(Point::new(0, 26), self.subprompt.as_str(), Font::Normal, theme::fg(), theme::bg());
        d.text(Point::new(0, 50), self.pin.as_str(), Font::Mono, theme::fg(), theme::bg());
        if self.allow_cancel {
            self.cancel.paint(d);
        }
        self.confirm.paint(d);
        proof {
            assert(d@ =~= old(d)@ + self.paint_spec());
        }
    }
}

} // verus!
