use vstd::prelude::*;

use crate::button::ButtonMsg;
use crate::component::{Component, Pad, Paginate};
use crate::display::{DisplayList, Draw, Font};
use crate::event::{Event, EventCtx};
use crate::geometry::Rect;
use crate::keypad::{ButtonPos, KeyButton};
use crate::theme;

verus! {

broadcast use
    crate::keypad::lemma_key_set_released,
    crate::keypad::lemma_key_event_spec,
    crate::keypad::lemma_key_place_spec,
    crate::component::Pad::lemma_pad_place_spec;

/// What a paginated screen reports: the content's own message forwarded, or
/// the finished flow's outcome, `true` for confirmed and `false` for
/// cancelled.
#[derive(Clone, Copy, PartialEq, Eq, Structural, Debug)]
pub enum PageMsg<T> {
    Content(T),
    Controls(bool),
}

/// Paginated content with arrow navigation: the left control always steps
/// back, and cancels on the first page; the right control always steps
/// forward, and confirms on the last page.
pub struct ButtonPage<T> {
    content: T,
    pad: Pad,
    left: KeyButton,
    right: KeyButton,
    active_page: usize,
}

impl<T: Paginate> ButtonPage<T> {
    pub closed spec fn spec_content(&self) -> T {
        self.content
    }

    pub closed spec fn spec_active_page(&self) -> usize {
        self.active_page
    }

    pub closed spec fn spec_left(&self) -> KeyButton {
        self.left
    }

    pub closed spec fn spec_right(&self) -> KeyButton {
        self.right
    }

    pub fn new(content: T, background: crate::display::Color) -> (r: ButtonPage<T>)
        requires
            content.inv(),
        ensures
            r.inv(),
            r.spec_content() == content,
            r.spec_active_page() == 0,
    {
        proof {
            reveal_strlit("BACK");
            reveal_strlit("NEXT");
            content.lemma_page_count_pos();
        }
        ButtonPage {
            content,
            pad: Pad::with_background(background),
            left: KeyButton::with_text(ButtonPos::Left, "BACK".to_owned(), theme::button_cancel()),
            right: KeyButton::with_text(
                ButtonPos::Right,
                "NEXT".to_owned(),
                theme::button_default(),
            ),
            active_page: 0,
        }
    }

    /// The height of the navigation row.
    pub open spec fn spec_row_height(bounds: Rect) -> int {
        let th: int = Font::Bold.spec_line_height() + 2;
        if bounds.spec_height() < th {
            bounds.spec_height()
        } else {
            th
        }
    }
}

impl<T: Paginate> Component for ButtonPage<T> {
    type Msg = PageMsg<<T as Component>::Msg>;

    closed spec fn inv(&self) -> bool {
        self.content.inv() && (self.active_page as int) < self.content.spec_page_count()
            && self.left.inv() && self.right.inv() && self.left.spec_pos() == ButtonPos::Left
            && self.right.spec_pos() == ButtonPos::Right
    }

    closed spec fn place_spec(&self, bounds: Rect) -> (ButtonPage<T>, Rect) {
        let split = bounds.spec_split_bottom(ButtonPage::<T>::spec_row_height(bounds));
        (
            ButtonPage {
                content: self.content.place_spec(split.0).0,
                pad: self.pad.place_spec(bounds),
                left: self.left.place_spec(split.1).0,
                right: self.right.place_spec(split.1).0,
                active_page: self.active_page,
            },
            bounds,
        )
    }

    fn place(&mut self, bounds: Rect) -> (r: Rect) {
        let th = Font::Bold.line_height() + 2;
        let h = bounds.height();
        let cut = if h < th {
            h
        } else {
            th
        };
        let split = bounds.split_bottom(cut);
        proof {
            old(self).content.lemma_place_keeps_page_count(split.0);
        }
        self.content.place(split.0);
        self.pad.place(bounds);
        self.left.place(split.1);
        self.right.place(split.1);
        bounds
    }

    proof fn lemma_place_idempotent(&self, bounds: Rect) {
        broadcast use crate::keypad::lemma_key_place_spec;
        broadcast use crate::component::Pad::lemma_pad_place_spec;

        let split = bounds.spec_split_bottom(ButtonPage::<T>::spec_row_height(bounds));
        self.content.lemma_place_idempotent(split.0);
        self.left.lemma_place_idempotent(split.1);
        self.right.lemma_place_idempotent(split.1);
    }

    closed spec fn event_spec(&self, event: Event) -> (ButtonPage<T>, Option<Self::Msg>, bool) {
        let lstep = self.left.event_spec(event);
        if lstep.1 == Some(ButtonMsg::Clicked) {
            if self.active_page == 0 {
                (
                    (ButtonPage { left: lstep.0, ..*self }),
                    Some(PageMsg::Controls(false)),
                    lstep.2,
                )
            } else {
                (
                    (ButtonPage {
                        left: lstep.0,
                        content: self.content.change_page_spec(self.active_page - 1),
                        active_page: (self.active_page - 1) as usize,
                        ..*self
                    }),
                    None,
                    lstep.2,
                )
            }
        } else {
            let rstep = self.right.event_spec(event);
            if rstep.1 == Some(ButtonMsg::Clicked) {
                if self.active_page as int == self.content.spec_page_count() - 1 {
                    (
                        (ButtonPage { left: lstep.0, right: rstep.0, ..*self }),
                        Some(PageMsg::Controls(true)),
                        lstep.2 || rstep.2,
                    )
                } else {
                    (
                        (ButtonPage {
                            left: lstep.0,
                            right: rstep.0,
                            content: self.content.change_page_spec(self.active_page + 1),
                            active_page: (self.active_page + 1) as usize,
                            ..*self
                        }),
                        None,
                        lstep.2 || rstep.2,
                    )
                }
            } else {
                let cstep = self.content.event_spec(event);
                (
                    (ButtonPage { left: lstep.0, right: rstep.0, content: cstep.0, ..*self }),
                    (match cstep.1 {
                        Some(m) => Some(PageMsg::Content(m)),
                        None => None,
                    }),
                    lstep.2 || rstep.2 || cstep.2,
                )
            }
        }
    }

    fn event(&mut self, ctx: &mut EventCtx, event: Event) -> (m: Option<Self::Msg>) {
        if self.left.event(ctx, event) == Some(ButtonMsg::Clicked) {
            if self.active_page == 0 {
                // Stepping back off the first page cancels the flow.
                return Some(PageMsg::Controls(false));
            }
            self.active_page = self.active_page - 1;
            self.content.change_page(self.active_page);
            return None;
        }
        if self.right.event(ctx, event) == Some(ButtonMsg::Clicked) {
            let count = self.content.page_count();
            if self.active_page == count - 1 {
                // Stepping forward off the last page confirms the flow.
                return Some(PageMsg::Controls(true));
            }
            self.active_page = self.active_page + 1;
            self.content.change_page(self.active_page);
            return None;
        }
        proof {
            self.content.lemma_event_keeps_page_count(event);
        }
        if let Some(m) = self.content.event(ctx, event) {
            return Some(PageMsg::Content(m));
        }
        None
    }

    closed spec fn paint_spec(&self) -> Seq<Draw> {
        self.pad.paint_spec() + self.content.paint_spec() + self.left.paint_spec()
            + self.right.paint_spec()
    }

    fn paint(&self, d: &mut DisplayList) {
        self.pad.paint(d);
        self.content.paint(d);
        self.left.paint(d);
        self.right.paint(d);
        proof {
            assert(d@ =~= old(d)@ + self.paint_spec());
        }
    }
}

} // verus!
