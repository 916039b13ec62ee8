use vstd::prelude::*;

use crate::button::ButtonMsg;
use crate::component::Component;
use crate::display::{DisplayList, Draw, Font};
use crate::event::{Event, EventCtx};
use crate::geometry::Rect;
use crate::keypad::KeyButton;

verus! {

/// What a dialog reports: the inner content's own message forwarded, or a
/// click of one of its optional action buttons. The buttons take priority,
/// so one event dispatch yields at most one of these.
#[derive(Clone, Copy, PartialEq, Eq, Structural, Debug)]
pub enum DialogMsg<T> {
    Content(T),
    LeftClicked,
    RightClicked,
}

/// Inner content with optional left and right action buttons on the bottom
/// row. A button's click is reported before any reaction of the content:
/// when a configured button completes a click, the content does not see the
/// event at all.
pub struct Dialog<T> {
    content: T,
    left: Option<KeyButton>,
    right: Option<KeyButton>,
}

impl<T: Component> Dialog<T> {
    pub closed spec fn spec_content(&self) -> T {
        self.content
    }

    pub closed spec fn spec_left(&self) -> Option<KeyButton> {
        self.left
    }

    pub closed spec fn spec_right(&self) -> Option<KeyButton> {
        self.right
    }

    pub fn new(content: T, left: Option<KeyButton>, right: Option<KeyButton>) -> (r: Dialog<T>)
        requires
            content.inv(),
            (match left {
                Some(b) => b.inv(),
                None => true,
            }),
            (match right {
                Some(b) => b.inv(),
                None => true,
            }),
        ensures
            r.inv(),
            r.spec_content() == content,
            r.spec_left() == left,
            r.spec_right() == right,
    {
        Dialog { content, left, right }
    }

    pub fn inner(&self) -> (r: &T)
        ensures
            *r == self.spec_content(),
    {
        &self.content
    }

    /// A well-formed dialog wraps well-formed content.
    pub proof fn lemma_content_inv(&self)
        requires
            self.inv(),
        ensures
            self.spec_content().inv(),
    {
    }

    /// The left button's reaction to the event: its successor and whether
    /// it completed a click; an absent button reacts to nothing.
    pub open spec fn spec_button_step(b: Option<KeyButton>, event: Event) -> (
        Option<KeyButton>,
        bool,
        bool,
    ) {
        match b {
            Some(btn) => (
                Some(btn.event_spec(event).0),
                btn.event_spec(event).1 == Some(ButtonMsg::Clicked),
                btn.event_spec(event).2,
            ),
            None => (None, false, false),
        }
    }

    /// The height of the action-button row.
    pub open spec fn spec_row_height(bounds: Rect) -> int {
        let th: int = Font::Bold.spec_line_height() + 2;
        if bounds.spec_height() < th {
            bounds.spec_height()
        } else {
            th
        }
    }
}

impl<T: Component> Component for Dialog<T> {
    type Msg = DialogMsg<<T as Component>::Msg>;

    closed spec fn inv(&self) -> bool {
        self.content.inv() && (match self.left {
            Some(b) => b.inv(),
            None => true,
        }) && (match self.right {
            Some(b) => b.inv(),
            None => true,
        })
    }

    closed spec fn place_spec(&self, bounds: Rect) -> (Dialog<T>, Rect) {
        let split = bounds.spec_split_bottom(Dialog::<T>::spec_row_height(bounds));
        (
            Dialog {
                content: self.content.place_spec(split.0).0,
                left: (match self.left {
                    Some(b) => Some(b.place_spec(split.1).0),
                    None => None,
                }),
                right: (match self.right {
                    Some(b) => Some(b.place_spec(split.1).0),
                    None => None,
                }),
            },
            bounds,
        )
    }

    fn place(&mut self, bounds: Rect) -> (r: Rect) {
        let th = Font::Bold.line_height() + 2;
        let h = bounds.height();
        let cut = if h < th {
            h
        } else {
            th
        };
        let split = bounds.split_bottom(cut);
        self.content.place(split.0);
        if let Some(b) = &mut self.left {
            b.place(split.1);
        }
        if let Some(b) = &mut self.right {
            b.place(split.1);
        }
        bounds
    }

    proof fn lemma_place_idempotent(&self, bounds: Rect) {
        broadcast use crate::keypad::lemma_key_place_spec;

        let split = bounds.spec_split_bottom(Dialog::<T>::spec_row_height(bounds));
        self.content.lemma_place_idempotent(split.0);
        if let Some(b) = self.left {
            b.lemma_place_idempotent(split.1);
        }
        if let Some(b) = self.right {
            b.lemma_place_idempotent(split.1);
        }
    }

    closed spec fn event_spec(&self, event: Event) -> (Dialog<T>, Option<Self::Msg>, bool) {
        let lstep = Dialog::<T>::spec_button_step(self.left, event);
        if lstep.1 {
            ((Dialog { content: self.content, left: lstep.0, right: self.right }), Some(
                DialogMsg::LeftClicked,
            ), lstep.2)
        } else {
            let rstep = Dialog::<T>::spec_button_step(self.right, event);
            if rstep.1 {
                ((Dialog { content: self.content, left: lstep.0, right: rstep.0 }), Some(
                    DialogMsg::RightClicked,
                ), lstep.2 || rstep.2)
            } else {
                let cstep = self.content.event_spec(event);
                (
                    (Dialog { content: cstep.0, left: lstep.0, right: rstep.0 }),
                    (match cstep.1 {
                        Some(m) => Some(DialogMsg::Content(m)),
                        None => None,
                    }),
                    lstep.2 || rstep.2 || cstep.2,
                )
            }
        }
    }

    fn event(&mut self, ctx: &mut EventCtx, event: Event) -> (m: Option<Self::Msg>) {
        if let Some(b) = &mut self.left {
            if b.event(ctx, event) == Some(ButtonMsg::Clicked) {
                return Some(DialogMsg::LeftClicked);
            }
        }
        if let Some(b) = &mut self.right {
            if b.event(ctx, event) == Some(ButtonMsg::Clicked) {
                return Some(DialogMsg::RightClicked);
            }
        }
        if let Some(m) = self.content.event(ctx, event) {
            return Some(DialogMsg::Content(m));
        }
        None
    }

    closed spec fn paint_spec(&self) -> Seq<Draw> {
        self.content.paint_spec() + (match self.left {
            Some(b) => b.paint_spec(),
            None => Seq::empty(),
        }) + (match self.right {
            Some(b) => b.paint_spec(),
            None => Seq::empty(),
        })
    }

    fn paint(&self, d: &mut DisplayList) {
        self.content.paint(d);
        if let Some(b) = &self.left {
            b.paint(d);
        }
        if let Some(b) = &self.right {
            b.paint(d);
        }
        proof {
            assert(d@ =~= old(d)@ + self.paint_spec());
        }
    }
}

impl<T: Component> Dialog<T> {
    /// Even when the wrapped content and a configured action button could
    /// both react to one event, at most one message comes out of a
    /// dispatch, and the button's click wins: the content is then left
    /// untouched, so it was not even consulted.
    pub proof fn lemma_one_message_priority(&self, event: Event)
        requires
            self.inv(),
        ensures
            Dialog::<T>::spec_button_step(self.spec_left(), event).1 ==> self.event_spec(event).1
                == Some(DialogMsg::<<T as Component>::Msg>::LeftClicked) && self.event_spec(
                event,
            ).0.spec_content()
                == self.spec_content(),
            !Dialog::<T>::spec_button_step(self.spec_left(), event).1 && Dialog::<
                T,
            >::spec_button_step(self.spec_right(), event).1 ==> self.event_spec(event).1 == Some(
                DialogMsg::<<T as Component>::Msg>::RightClicked,
            ) && self.event_spec(event).0.spec_content() == self.spec_content(),
            !Dialog::<T>::spec_button_step(self.spec_left(), event).1 && !Dialog::<
                T,
            >::spec_button_step(self.spec_right(), event).1 ==> self.event_spec(event).1 == (
            match self.spec_content().event_spec(event).1 {
                Some(m) => Some(DialogMsg::Content(m)),
                None => None,
            }),
    {
    }
}

} // verus!
