use vstd::prelude::*;

use crate::geometry::Point;

verus! {

/// A raw touchscreen event, with the touch position in display coordinates.
#[derive(Clone, Copy, PartialEq, Eq, Structural, Debug)]
pub enum TouchEvent {
    TouchStart(Point),
    TouchMove(Point),
    TouchEnd(Point),
}

/// One of the two physical keys of two-button hardware, or the synthesized
/// third input standing for both keys held at once. The hardware itself only
/// ever reports `Left` and `Right`; `Both` is produced by the aggregation
/// handler.
#[derive(Clone, Copy, PartialEq, Eq, Structural, Debug)]
pub enum PhysicalButton {
    Left,
    Right,
    Both,
}

/// A raw press or release of a physical key.
#[derive(Clone, Copy, PartialEq, Eq, Structural, Debug)]
pub enum ButtonEvent {
    Pressed(PhysicalButton),
    Released(PhysicalButton),
}

/// One input event dispatched into the component tree.
#[derive(Clone, Copy, PartialEq, Eq, Structural, Debug)]
pub enum Event {
    Touch(TouchEvent),
    Button(ButtonEvent),
}

/// The side-effect channel handed to `event`: a widget can only use it to
/// request a repaint, nothing else. The request is monotonic within one
/// dispatch; asking twice is harmless.
#[derive(Clone, Copy, PartialEq, Eq, Structural, Debug)]
pub struct EventCtx {
    paint_requested: bool,
}

impl EventCtx {
    pub closed spec fn spec_paint_requested(self) -> bool {
        self.paint_requested
    }

    pub fn new() -> (r: EventCtx)
        ensures
            !r.spec_paint_requested(),
    {
        EventCtx { paint_requested: false }
    }

    pub fn request_paint(&mut self)
        ensures
            final(self).spec_paint_requested(),
    {
        self.paint_requested = true;
    }

    pub fn paint_requested(&self) -> (r: bool)
        ensures
            r == self.spec_paint_requested(),
    {
        self.paint_requested
    }
}

} // verus!
