use vstd::prelude::*;

use crate::component::Component;
use crate::display::{DisplayList, Draw, Font};
use crate::event::{Event, EventCtx};
use crate::geometry::{Point, Rect};
use crate::theme;

verus! {

/// A titled frame around an inner component: pure decoration. It draws the
/// title over the top strip, hands the rest of the bounds to the inner
/// component, and forwards the inner component's message unchanged.
pub struct Frame<T> {
    title: String,
    title_area: Rect,
    content: T,
}

impl<T: Component> Frame<T> {
    pub closed spec fn spec_title(&self) -> Seq<char> {
        self.title@
    }

    pub closed spec fn spec_title_area(&self) -> Rect {
        self.title_area
    }

    pub closed spec fn spec_content(&self) -> T {
        self.content
    }

    pub fn new(title: String, content: T) -> (r: Frame<T>)
        requires
            content.inv(),
        ensures
            r.inv(),
            r.spec_title() == title@,
            r.spec_content() == content,
    {
        Frame { title, title_area: Rect { x0: 0, y0: 0, x1: 0, y1: 0 }, content }
    }

    pub fn inner(&self) -> (r: &T)
        ensures
            *r == self.spec_content(),
    {
        &self.content
    }

    /// A well-formed frame wraps well-formed content.
    pub proof fn lemma_content_inv(&self)
        requires
            self.inv(),
        ensures
            self.spec_content().inv(),
    {
    }

    /// The height of the title strip.
    pub open spec fn spec_title_height(bounds: Rect) -> int {
        let th: int = Font::Bold.spec_line_height() + 2;
        if bounds.spec_height() < th {
            bounds.spec_height()
        } else {
            th
        }
    }
}

impl<T: Component> Component for Frame<T> {
    type Msg = <T as Component>::Msg;

    closed spec fn inv(&self) -> bool {
        self.content.inv() && self.title_area.wf()
    }

    closed spec fn place_spec(&self, bounds: Rect) -> (Frame<T>, Rect) {
        let split = bounds.spec_split_top(Frame::<T>::spec_title_height(bounds));
        (
            Frame {
                title: self.title,
                title_area: split.0,
                content: self.content.place_spec(split.1).0,
            },
            bounds,
        )
    }

    fn place(&mut self, bounds: Rect) -> (r: Rect) {
        let th = Font::Bold.line_height() + 2;
        let h = bounds.height();
        let cut = if h < th {
            h
        } else {
            th
        };
        let split = bounds.split_top(cut);
        self.title_area = split.0;
        self.content.place(split.1);
        bounds
    }

    proof fn lemma_place_idempotent(&self, bounds: Rect) {
        let split = bounds.spec_split_top(Frame::<T>::spec_title_height(bounds));
        self.content.lemma_place_idempotent(split.1);
    }

    closed spec fn event_spec(&self, event: Event) -> (Frame<T>, Option<Self::Msg>, bool) {
        let step = self.content.event_spec(event);
        (
            Frame { title: self.title, title_area: self.title_area, content: step.0 },
            step.1,
            step.2,
        )
    }

    fn event(&mut self, ctx: &mut EventCtx, event: Event) -> (m: Option<Self::Msg>) {
        self.content.event(ctx, event)
    }

    closed spec fn paint_spec(&self) -> Seq<Draw> {
        seq![
            Draw::Text {
                baseline: Point {
                    x: self.title_area.x0,
                    y: (self.title_area.y0 + 10) as i32,
                },
                text: self.title@,
                font: Font::Bold,
                fg: theme::spec_fg(),
                bg: theme::spec_bg(),
            },
        ] + self.content.paint_spec()
    }

    fn paint(&self, d: &mut DisplayList) {
        d.text(
            Point::new(self.title_area.x0, self.title_area.y0 + 10),
            self.title.as_str(),
            Font::Bold,
            theme::fg(),
            theme::bg(),
        );
        self.content.paint(d);
        proof {
            assert(d@ =~= old(d)@ + self.paint_spec());
        }
    }
}

} // verus!
