use vstd::prelude::*;

use crate::display::{Color, DisplayList, Draw};
use crate::event::{Event, EventCtx};
use crate::geometry::Rect;

verus! {

/// The contract every widget implements.
///
/// Each widget names its own mathematical model: `place_spec` says what
/// placement does to the widget and which rectangle it occupies, `event_spec`
/// says, for one input event, the successor state, the at most one message
/// reported, and whether a repaint was requested, and `paint_spec` says which
/// drawing operations a paint pass appends. The executable methods are pinned
/// to those models exactly, so placement and painting are deterministic and
/// an event dispatch yields at most one message by construction.
pub trait Component: Sized {
    type Msg;

    /// The widget's internal well-formedness; constructors establish it and
    /// every operation preserves it.
    spec fn inv(&self) -> bool;

    /// The widget after placing into `bounds`, and the rectangle it occupies.
    spec fn place_spec(&self, bounds: Rect) -> (Self, Rect);

    fn place(&mut self, bounds: Rect) -> (r: Rect)
        requires
            old(self).inv(),
            bounds.wf(),
        ensures
            final(self).inv(),
            (*final(self), r) == old(self).place_spec(bounds),
    ;

    /// Placing twice into the same bounds lays the widget out exactly as
    /// placing once: layout is re-derived, never accumulated.
    proof fn lemma_place_idempotent(&self, bounds: Rect)
        requires
            self.inv(),
            bounds.wf(),
        ensures
            self.place_spec(bounds).0.place_spec(bounds) == self.place_spec(bounds),
    ;

    /// Successor state, reported message, and repaint request for one event.
    spec fn event_spec(&self, event: Event) -> (Self, Option<Self::Msg>, bool);

    fn event(&mut self, ctx: &mut EventCtx, event: Event) -> (m: Option<Self::Msg>)
        requires
            old(self).inv(),
        ensures
            final(self).inv(),
            *final(self) == old(self).event_spec(event).0,
            m == old(self).event_spec(event).1,
            final(ctx).spec_paint_requested() == (old(ctx).spec_paint_requested() || old(
                self,
            ).event_spec(event).2),
    ;

    /// The drawing operations one paint pass appends: a function of the
    /// current state alone, so painting is idempotent.
    spec fn paint_spec(&self) -> Seq<Draw>;

    fn paint(&self, d: &mut DisplayList)
        requires
            self.inv(),
        ensures
            final(d)@ == old(d)@ + self.paint_spec(),
    ;
}

/// Bounded content that can hand out its total page count and switch the
/// page it currently renders.
pub trait Paginate: Component {
    spec fn spec_page_count(&self) -> int;

    proof fn lemma_page_count_pos(&self)
        requires
            self.inv(),
        ensures
            self.spec_page_count() >= 1,
    ;

    fn page_count(&self) -> (r: usize)
        requires
            self.inv(),
        ensures
            r == self.spec_page_count(),
    ;

    /// Handling an event never alters how much content there is to page
    /// through.
    proof fn lemma_event_keeps_page_count(&self, event: Event)
        ensures
            self.event_spec(event).0.spec_page_count() == self.spec_page_count(),
    ;

    /// Placement lays the content out but never alters how much of it
    /// there is to page through.
    proof fn lemma_place_keeps_page_count(&self, bounds: Rect)
        ensures
            self.place_spec(bounds).0.spec_page_count() == self.spec_page_count(),
    ;

    /// The content after switching to the given page.
    spec fn change_page_spec(&self, page: int) -> Self;

    fn change_page(&mut self, page: usize)
        requires
            old(self).inv(),
            page < old(self).spec_page_count(),
        ensures
            final(self).inv(),
            *final(self) == old(self).change_page_spec(page as int),
            final(self).spec_page_count() == old(self).spec_page_count(),
    ;
}

/// A plain background pad behind a widget: painting it clears the widget's
/// whole area to the background color.
pub struct Pad {
    area: Rect,
    color: Color,
}

impl Pad {
    pub closed spec fn spec_area(self) -> Rect {
        self.area
    }

    pub closed spec fn spec_color(self) -> Color {
        self.color
    }

    pub fn with_background(color: Color) -> (r: Pad)
        ensures
            r.spec_color() == color,
            r.spec_area() == (Rect { x0: 0, y0: 0, x1: 0, y1: 0 }),
    {
        Pad { area: Rect { x0: 0, y0: 0, x1: 0, y1: 0 }, color }
    }

    pub closed spec fn place_spec(self, bounds: Rect) -> Pad {
        Pad { area: bounds, color: self.color }
    }

    pub fn place(&mut self, bounds: Rect)
        ensures
            *final(self) == old(self).place_spec(bounds),
            final(self).spec_area() == bounds,
            final(self).spec_color() == old(self).spec_color(),
    {
        self.area = bounds;
    }

    /// What placement does to a pad, stated over the accessors, for
    /// reasoning outside this module.
    pub broadcast proof fn lemma_pad_place_spec(self, bounds: Rect)
        ensures
            (#[trigger] self.place_spec(bounds)).spec_area() == bounds,
            self.place_spec(bounds).spec_color() == self.spec_color(),
            self.place_spec(bounds).place_spec(bounds) == self.place_spec(bounds),
    {
    }

    pub open spec fn paint_spec(self) -> Seq<Draw> {
        seq![
            Draw::FillRoundedRect {
                area: self.spec_area(),
                fg: self.spec_color(),
                bg: self.spec_color(),
                radius: 0,
            },
        ]
    }

    pub fn paint(&self, d: &mut DisplayList)
        ensures
            final(d)@ == old(d)@ + self.paint_spec(),
    {
        d.rect_fill_rounded(self.area, self.color, self.color, 0);
        proof {
            assert(d@ =~= old(d)@ + self.paint_spec());
        }
    }
}

} // verus!
