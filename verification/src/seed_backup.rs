use vstd::prelude::*;

use crate::button::{ButtonMsg, State};
use crate::component::{Component, Pad};
use crate::display::{DisplayList, Draw, Font};
use crate::event::{ButtonEvent, Event, EventCtx, PhysicalButton};
use crate::geometry::{Point, Rect};
use crate::keypad::{bbp_next, bbp_out, BothButtonPressHandler, ButtonPos, KeyButton};
use crate::theme;
use crate::words::{word_at, word_list_contents, words_len};

verus! {

broadcast use
    crate::keypad::lemma_bbp_spec_step,
    crate::keypad::lemma_key_set_released,
    crate::keypad::lemma_key_event_spec,
    crate::keypad::lemma_key_place_spec,
    crate::component::Pad::lemma_pad_place_spec;

/// The one message the seed-word confirmation page reports: the user
/// confirmed the word the counter rests on.
#[derive(Clone, Copy, PartialEq, Eq, Structural, Debug)]
pub enum ConfirmWordPageMsg {
    Confirmed,
}

pub const LEFT_COL: i32 = 5;

pub const MIDDLE_COL: i32 = 62;

pub const RIGHT_COL: i32 = 115;

pub const MIDDLE_ROW: i32 = 72;

/// A fixed three-slot window over a bounded word sequence: the previous
/// word at the left, the current one emphasized in the middle, the next one
/// previewed at the right. BACK and NEXT step the counter; OK confirms the
/// current word and is the page's only terminal action.
pub struct ConfirmWordPage {
    prompt: String,
    words: heapless::Vec<heapless::String<50>, 24>,
    both_button_press: BothButtonPressHandler,
    pad: Pad,
    prev: KeyButton,
    next: KeyButton,
    ok: KeyButton,
    page_counter: u8,
}

impl ConfirmWordPage {
    pub closed spec fn spec_prompt(&self) -> Seq<char> {
        self.prompt@
    }

    pub closed spec fn spec_words(&self) -> Seq<Seq<char>> {
        word_list_contents(self.words)
    }

    pub closed spec fn spec_counter(&self) -> u8 {
        self.page_counter
    }

    pub closed spec fn spec_prev(&self) -> KeyButton {
        self.prev
    }

    pub closed spec fn spec_next(&self) -> KeyButton {
        self.next
    }

    pub closed spec fn spec_ok(&self) -> KeyButton {
        self.ok
    }

    pub closed spec fn spec_handler(&self) -> crate::keypad::BbpState {
        self.both_button_press.view_state()
    }

    pub closed spec fn spec_pad(&self) -> Pad {
        self.pad
    }

    /// The word the counter currently rests on.
    pub open spec fn spec_current_word(&self) -> Seq<char> {
        self.spec_words()[self.spec_counter() as int]
    }

    /// The page is idle: no key is tracked as held and every control rests
    /// in its initial state.
    pub open spec fn spec_idle(&self) -> bool {
        self.spec_handler() == crate::keypad::bbp_initial() && self.spec_prev().spec_state()
            == State::Initial && self.spec_next().spec_state() == State::Initial
            && self.spec_ok().spec_state() == State::Initial
    }

    pub fn new(prompt: String, words: heapless::Vec<heapless::String<50>, 24>) -> (r:
        ConfirmWordPage)
        requires
            1 <= word_list_contents(words).len() <= 24,
        ensures
            r.inv(),
            r.spec_prompt() == prompt@,
            r.spec_words() == word_list_contents(words),
            r.spec_counter() == 0,
            r.spec_idle(),
    {
        proof {
            reveal_strlit("BACK");
            reveal_strlit("NEXT");
            reveal_strlit("OK");
        }
        ConfirmWordPage {
            prompt,
            words,
            both_button_press: BothButtonPressHandler::new(),
            pad: Pad::with_background(theme::bg()),
            prev: KeyButton::with_text(ButtonPos::Left, "BACK".to_owned(), theme::button_default()),
            next: KeyButton::with_text(
                ButtonPos::Right,
                "NEXT".to_owned(),
                theme::button_default(),
            ),
            ok: KeyButton::with_text(ButtonPos::Middle, "OK".to_owned(), theme::button_default()),
            page_counter: 0,
        }
    }

    /// Move the cycling window to the given word; the flow that builds the
    /// page starts it at the word the host asks to confirm.
    pub fn start_at(&mut self, index: u8)
        requires
            old(self).inv(),
            (index as int) < old(self).spec_words().len(),
        ensures
            final(self).inv(),
            final(self).spec_counter() == index,
            final(self).spec_words() == old(self).spec_words(),
            final(self).spec_prompt() == old(self).spec_prompt(),
            final(self).spec_handler() == old(self).spec_handler(),
            final(self).spec_prev() == old(self).spec_prev(),
            final(self).spec_next() == old(self).spec_next(),
            final(self).spec_ok() == old(self).spec_ok(),
            old(self).spec_idle() ==> final(self).spec_idle(),
    {
        self.page_counter = index;
    }

    /// The index of the terminal page: the last word's.
    pub fn last_page_index(&self) -> (r: u8)
        requires
            self.inv(),
        ensures
            r as int == self.spec_words().len() - 1,
    {
        (words_len(&self.words) as u8) - 1
    }

    pub fn get_current_word(&self) -> (w: &str)
        requires
            self.inv(),
        ensures
            w@ == self.spec_current_word(),
    {
        word_at(&self.words, self.page_counter as usize)
    }

    /// Draw bold white text on the black background.
    fn display_text(&self, d: &mut DisplayList, baseline: Point, text: &str)
        ensures
            final(d)@ == old(d)@.push(
                Draw::Text {
                    baseline,
                    text: text@,
                    font: Font::Bold,
                    fg: theme::spec_fg(),
                    bg: theme::spec_bg(),
                },
            ),
    {
        d.text(baseline, text, Font::Bold, theme::fg(), theme::bg());
    }

    /// The header: the prompt line and a dotted rule under it.
    pub open spec fn header_spec(&self) -> Seq<Draw> {
        seq![
            Draw::Text {
                baseline: Point { x: 0, y: 10 },
                text: self.spec_prompt(),
                font: Font::Bold,
                fg: theme::spec_fg(),
                bg: theme::spec_bg(),
            },
            Draw::DottedLine { start: Point { x: 0, y: 15 }, width: 128, color: theme::spec_fg() },
        ]
    }

    fn render_header(&self, d: &mut DisplayList)
        ensures
            final(d)@ == old(d)@ + self.header_spec(),
    {
        self.display_text(d, Point::new(0, 10), self.prompt.as_str());
        d.dotted_line(Point::new(0, 15), 128, theme::fg());
        proof {
            assert(d@ =~= old(d)@ + self.header_spec());
        }
    }

    /// One slot of the three-word window.
    pub open spec fn word_slot_spec(&self, col: i32, w: Seq<char>) -> Draw {
        Draw::Text {
            baseline: Point { x: col, y: MIDDLE_ROW },
            text: w,
            font: Font::Bold,
            fg: theme::spec_fg(),
            bg: theme::spec_bg(),
        }
    }

    /// The middle panel: the current word always; its predecessor exactly
    /// when the counter is positive; its successor exactly when the counter
    /// is below the last index. The window never reads outside the list.
    pub open spec fn words_spec(&self) -> Seq<Draw> {
        let prevs: Seq<Draw> = if self.spec_counter() > 0 {
            seq![self.word_slot_spec(LEFT_COL, self.spec_words()[self.spec_counter() - 1])]
        } else {
            Seq::empty()
        };
        let curs: Seq<Draw> = seq![
            self.word_slot_spec(MIDDLE_COL, self.spec_words()[self.spec_counter() as int]),
        ];
        let nexts: Seq<Draw> = if self.spec_counter() < self.spec_words().len() - 1 {
            seq![self.word_slot_spec(RIGHT_COL, self.spec_words()[self.spec_counter() + 1])]
        } else {
            Seq::empty()
        };
        prevs + curs + nexts
    }

    fn show_current_word(&self, d: &mut DisplayList)
        requires
            self.inv(),
        ensures
            final(d)@ == old(d)@.push(
                self.word_slot_spec(MIDDLE_COL, self.spec_words()[self.spec_counter() as int]),
            ),
    {
        let current = self.get_current_word();
        self.display_text(d, Point::new(MIDDLE_COL, MIDDLE_ROW), current);
    }

    fn show_previous_word(&self, d: &mut DisplayList)
        requires
            self.inv(),
        ensures
            final(d)@ == old(d)@ + (if self.spec_counter() > 0 {
                seq![self.word_slot_spec(LEFT_COL, self.spec_words()[self.spec_counter() - 1])]
            } else {
                Seq::<Draw>::empty()
            }),
    {
        if self.page_counter > 0 {
            let previous = word_at(&self.words, (self.page_counter - 1) as usize);
            self.display_text(d, Point::new(LEFT_COL, MIDDLE_ROW), previous);
        }
        proof {
            assert(d@ =~= old(d)@ + (if self.spec_counter() > 0 {
                seq![self.word_slot_spec(LEFT_COL, self.spec_words()[self.spec_counter() - 1])]
            } else {
                Seq::<Draw>::empty()
            }));
        }
    }

    fn show_next_word(&self, d: &mut DisplayList)
        requires
            self.inv(),
        ensures
            final(d)@ == old(d)@ + (if self.spec_counter() < self.spec_words().len() - 1 {
                seq![self.word_slot_spec(RIGHT_COL, self.spec_words()[self.spec_counter() + 1])]
            } else {
                Seq::<Draw>::empty()
            }),
    {
        if self.page_counter < self.last_page_index() {
            let next = word_at(&self.words, (self.page_counter + 1) as usize);
            self.display_text(d, Point::new(RIGHT_COL, MIDDLE_ROW), next);
        }
        proof {
            assert(d@ =~= old(d)@ + (if self.spec_counter() < self.spec_words().len() - 1 {
                seq![self.word_slot_spec(RIGHT_COL, self.spec_words()[self.spec_counter() + 1])]
            } else {
                Seq::<Draw>::empty()
            }));
        }
    }

    /// Draw the middle panel so that only the slots that exist at the
    /// current counter are shown.
    fn update_situation(&self, d: &mut DisplayList)
        requires
            self.inv(),
        ensures
            final(d)@ == old(d)@ + self.words_spec(),
    {
        if self.page_counter == 0 {
            self.show_current_word(d);
            self.show_next_word(d);
        } else if self.page_counter < self.last_page_index() {
            self.show_previous_word(d);
            self.show_current_word(d);
            self.show_next_word(d);
        } else {
            self.show_previous_word(d);
            self.show_current_word(d);
        }
        proof {
            assert(d@ =~= old(d)@ + self.words_spec());
        }
    }

    /// Force the BACK and NEXT buttons into their released look; one of
    /// them holds a pressed look from the first key of a both-keys press.
    /// No event is delivered to them, they are only repainted.
    fn set_right_and_left_buttons_as_released(&mut self, ctx: &mut EventCtx)
        ensures
            *final(self) == (ConfirmWordPage {
                prev: old(self).prev.spec_set_released(),
                next: old(self).next.spec_set_released(),
                ..*old(self)
            }),
            final(ctx).spec_paint_requested() == (old(ctx).spec_paint_requested() || old(
                self,
            ).prev.spec_state() != State::Released || old(self).next.spec_state()
                != State::Released),
    {
        self.prev.set_released(ctx);
        self.next.set_released(ctx);
    }
}

impl Component for ConfirmWordPage {
    type Msg = ConfirmWordPageMsg;

    closed spec fn inv(&self) -> bool {
        1 <= word_list_contents(self.words).len() <= 24 && (self.page_counter as int)
            < word_list_contents(self.words).len() && self.prev.inv() && self.next.inv()
            && self.ok.inv() && self.prev.spec_pos() == ButtonPos::Left && self.next.spec_pos()
            == ButtonPos::Right && self.ok.spec_pos() == ButtonPos::Middle
    }

    closed spec fn place_spec(&self, bounds: Rect) -> (ConfirmWordPage, Rect) {
        let button_height: int = Font::Bold.spec_line_height() + 2;
        let bh: int = if bounds.spec_height() < button_height {
            bounds.spec_height()
        } else {
            button_height
        };
        let button_area = bounds.spec_split_bottom(bh).1;
        (
            ConfirmWordPage {
                pad: self.pad.place_spec(bounds),
                prev: self.prev.place_spec(button_area).0,
                next: self.next.place_spec(button_area).0,
                ok: self.ok.place_spec(button_area).0,
                ..*self
            },
            bounds,
        )
    }

    fn place(&mut self, bounds: Rect) -> (r: Rect) {
        let button_height = Font::Bold.line_height() + 2;
        let h = bounds.height();
        let bh = if h < button_height {
            h
        } else {
            button_height
        };
        let split = bounds.split_bottom(bh);
        let button_area = split.1;
        self.pad.place(bounds);
        self.prev.place(button_area);
        self.next.place(button_area);
        self.ok.place(button_area);
        bounds
    }

    proof fn lemma_place_idempotent(&self, bounds: Rect) {
        let button_height: int = Font::Bold.spec_line_height() + 2;
        let bh: int = if bounds.spec_height() < button_height {
            bounds.spec_height()
        } else {
            button_height
        };
        let ba = bounds.spec_split_bottom(bh).1;
        self.prev.lemma_place_idempotent(ba);
        self.next.lemma_place_idempotent(ba);
        self.ok.lemma_place_idempotent(ba);
    }

    closed spec fn event_spec(&self, event: Event) -> (
        ConfirmWordPage,
        Option<ConfirmWordPageMsg>,
        bool,
    ) {
        let h0 = self.both_button_press.view_state();
        let handler1 = self.both_button_press.spec_step(event);
        if bbp_out(h0, event) is None {
            ((ConfirmWordPage { both_button_press: handler1, ..*self }), None, false)
        } else {
            let e = bbp_out(h0, event)->0;
            let forced = e == Event::Button(ButtonEvent::Pressed(PhysicalButton::Both));
            let prev0 = if forced {
                self.prev.spec_set_released()
            } else {
                self.prev
            };
            let next0 = if forced {
                self.next.spec_set_released()
            } else {
                self.next
            };
            let fflag = forced && (self.prev.spec_state() != State::Released
                || self.next.spec_state() != State::Released);
            let pstep = if self.page_counter > 0 {
                prev0.event_spec(e)
            } else {
                (prev0, None, false)
            };
            if self.page_counter > 0 && pstep.1 == Some(ButtonMsg::Clicked) {
                (
                    (ConfirmWordPage {
                        both_button_press: handler1,
                        prev: pstep.0,
                        next: next0,
                        page_counter: (self.page_counter - 1) as u8,
                        ..*self
                    }),
                    None,
                    fflag || pstep.2,
                )
            } else {
                let nstep = if (self.page_counter as int) < word_list_contents(self.words).len()
                    - 1 {
                    next0.event_spec(e)
                } else {
                    (next0, None, false)
                };
                if (self.page_counter as int) < word_list_contents(self.words).len() - 1 && nstep.1
                    == Some(ButtonMsg::Clicked) {
                    (
                        (ConfirmWordPage {
                            both_button_press: handler1,
                            prev: pstep.0,
                            next: nstep.0,
                            page_counter: (self.page_counter + 1) as u8,
                            ..*self
                        }),
                        None,
                        fflag || pstep.2 || nstep.2,
                    )
                } else {
                    let ostep = self.ok.event_spec(e);
                    (
                        (ConfirmWordPage {
                            both_button_press: handler1,
                            prev: pstep.0,
                            next: nstep.0,
                            ok: ostep.0,
                            ..*self
                        }),
                        if ostep.1 == Some(ButtonMsg::Clicked) {
                            Some(ConfirmWordPageMsg::Confirmed)
                        } else {
                            None
                        },
                        fflag || pstep.2 || nstep.2 || ostep.2,
                    )
                }
            }
        }
    }

    fn event(&mut self, ctx: &mut EventCtx, event: Event) -> (m: Option<ConfirmWordPageMsg>) {
        // A both-keys press may replace the raw event or swallow it.
        let replaced = self.both_button_press.possibly_replace_event(event);
        let event = match replaced {
            Some(e) => e,
            None => {
                return None;
            },
        };

        // At the edge of a both-keys press, the single-key buttons get the
        // released look so the display shows no separately active button.
        if self.both_button_press.are_both_buttons_pressed(event) {
            self.set_right_and_left_buttons_as_released(ctx);
        }

        // BACK steps the counter down; it reacts only off the first page.
        if self.page_counter > 0 {
            let pm = self.prev.event(ctx, event);
            if pm == Some(ButtonMsg::Clicked) {
                self.page_counter = self.page_counter - 1;
                return None;
            }
        }

        // NEXT steps the counter up; it reacts only before the last page.
        if self.page_counter < self.last_page_index() {
            let nm = self.next.event(ctx, event);
            if nm == Some(ButtonMsg::Clicked) {
                self.page_counter = self.page_counter + 1;
                return None;
            }
        }

        // OK confirms the current word; it is always reactive.
        let om = self.ok.event(ctx, event);
        if om == Some(ButtonMsg::Clicked) {
            return Some(ConfirmWordPageMsg::Confirmed);
        }

        None
    }

    closed spec fn paint_spec(&self) -> Seq<Draw> {
        self.pad.paint_spec() + self.header_spec() + self.words_spec() + (if self.spec_counter()
            > 0 {
            self.prev.paint_spec()
        } else {
            Seq::empty()
        }) + (if (self.spec_counter() as int) < self.spec_words().len() - 1 {
            self.next.paint_spec()
        } else {
            Seq::empty()
        }) + self.ok.paint_spec()
    }

    fn paint(&self, d: &mut DisplayList) {
        self.pad.paint(d);
        self.render_header(d);
        self.update_situation(d);
        if self.page_counter > 0 {
            self.prev.paint(d);
        }
        if self.page_counter < self.last_page_index() {
            self.next.paint(d);
        }
        self.ok.paint(d);
        proof {
            assert(d@ =~= old(d)@ + self.paint_spec());
        }
    }
}


impl ConfirmWordPage {
    /// What one paint pass shows, with the window and the controls laid
    /// open: the background, the header, the word at the counter with its
    /// predecessor exactly when the counter is positive and its successor
    /// exactly when the counter is below the last index, then the BACK
    /// control exactly when the counter is positive, the NEXT control
    /// exactly when the counter is below the last index, and the OK
    /// control always.
    pub proof fn lemma_controls_visibility(&self)
        requires
            self.inv(),
        ensures
            self.paint_spec() == self.spec_pad().paint_spec() + self.header_spec()
                + self.words_spec() + (if self.spec_counter() > 0 {
                self.spec_prev().paint_spec()
            } else {
                Seq::empty()
            }) + (if (self.spec_counter() as int) < self.spec_words().len() - 1 {
                self.spec_next().paint_spec()
            } else {
                Seq::empty()
            }) + self.spec_ok().paint_spec(),
            self.spec_counter() == 0 ==> self.words_spec() == seq![
                self.word_slot_spec(MIDDLE_COL, self.spec_current_word()),
            ] + (if self.spec_words().len() > 1 {
                seq![self.word_slot_spec(RIGHT_COL, self.spec_words()[1])]
            } else {
                Seq::empty()
            }),
    {
    }

    /// With a single word, both side slots and both side controls are
    /// absent: the page paints only the background, the header, the one
    /// word, and the OK control.
    pub proof fn lemma_single_word_page(&self)
        requires
            self.inv(),
            self.spec_words().len() == 1,
        ensures
            self.spec_counter() == 0,
            self.words_spec() == seq![self.word_slot_spec(MIDDLE_COL, self.spec_words()[0])],
            self.paint_spec() == self.spec_pad().paint_spec() + self.header_spec() + seq![
                self.word_slot_spec(MIDDLE_COL, self.spec_words()[0]),
            ] + self.spec_ok().paint_spec(),
    {
        assert(self.words_spec() =~= seq![self.word_slot_spec(MIDDLE_COL, self.spec_words()[0])]);
        assert(self.paint_spec() =~= self.spec_pad().paint_spec() + self.header_spec() + seq![
            self.word_slot_spec(MIDDLE_COL, self.spec_words()[0]),
        ] + self.spec_ok().paint_spec());
    }

    /// From an idle page, holding both keys and then releasing one reports
    /// `Confirmed` on that release and nothing earlier, leaves the counter
    /// and the words untouched, and so confirms exactly the word the
    /// counter rests on.
    pub proof fn lemma_ok_click_confirms(
        &self,
        first: PhysicalButton,
        second: PhysicalButton,
        released: PhysicalButton,
    )
        requires
            self.inv(),
            self.spec_idle(),
            (first == PhysicalButton::Left && second == PhysicalButton::Right) || (first
                == PhysicalButton::Right && second == PhysicalButton::Left),
            released == PhysicalButton::Left || released == PhysicalButton::Right,
        ensures
            ({
                let e1 = Event::Button(ButtonEvent::Pressed(first));
                let e2 = Event::Button(ButtonEvent::Pressed(second));
                let e3 = Event::Button(ButtonEvent::Released(released));
                let s1 = self.event_spec(e1).0;
                let s2 = s1.event_spec(e2).0;
                let s3 = s2.event_spec(e3).0;
                self.event_spec(e1).1 is None && s1.event_spec(e2).1 is None && s2.event_spec(
                    e3,
                ).1 == Some(ConfirmWordPageMsg::Confirmed) && s3.spec_counter()
                    == self.spec_counter() && s3.spec_words() == self.spec_words()
                    && s3.spec_current_word() == self.spec_current_word()
            }),
    {
    }

    /// Clicking NEXT (press then release of the right key) on an idle page
    /// steps the counter up by one when the counter is below the last
    /// index; on the last page the counter stays put. No message is
    /// reported and the words are untouched either way.
    pub proof fn lemma_next_click_steps(&self)
        requires
            self.inv(),
            self.spec_idle(),
        ensures
            ({
                let e1 = Event::Button(ButtonEvent::Pressed(PhysicalButton::Right));
                let e2 = Event::Button(ButtonEvent::Released(PhysicalButton::Right));
                let s1 = self.event_spec(e1).0;
                let s2 = s1.event_spec(e2).0;
                self.event_spec(e1).1 is None && s1.event_spec(e2).1 is None && s2.spec_words()
                    == self.spec_words() && ((self.spec_counter() as int) < self.spec_words().len()
                    - 1 ==> s2.spec_counter() == self.spec_counter() + 1) && ((
                self.spec_counter() as int) == self.spec_words().len() - 1 ==> s2.spec_counter()
                    == self.spec_counter())
            }),
    {
    }

    /// Clicking BACK (press then release of the left key) on an idle page
    /// steps the counter down by one when the counter is positive; on the
    /// first page the counter stays put. No message is reported and the
    /// words are untouched either way.
    pub proof fn lemma_back_click_steps(&self)
        requires
            self.inv(),
            self.spec_idle(),
        ensures
            ({
                let e1 = Event::Button(ButtonEvent::Pressed(PhysicalButton::Left));
                let e2 = Event::Button(ButtonEvent::Released(PhysicalButton::Left));
                let s1 = self.event_spec(e1).0;
                let s2 = s1.event_spec(e2).0;
                self.event_spec(e1).1 is None && s1.event_spec(e2).1 is None && s2.spec_words()
                    == self.spec_words() && (self.spec_counter() > 0 ==> s2.spec_counter()
                    == self.spec_counter() - 1) && (self.spec_counter() == 0 ==> s2.spec_counter()
                    == 0)
            }),
    {
    }
}

} // verus!
