use vstd::prelude::*;

use crate::geometry::{Point, Rect};

verus! {

/// A display color in the device's native 16-bit format.
#[derive(Clone, Copy, PartialEq, Eq, Structural, Debug)]
pub struct Color {
    pub rgb565: u16,
}

impl Color {
    pub fn new(rgb565: u16) -> (r: Color)
        ensures
            r == (Color { rgb565 }),
    {
        Color { rgb565 }
    }
}

/// The fixed-metric fonts the device ships; glyphs of one font share a width,
/// so text measurement is plain arithmetic over the character count.
#[derive(Clone, Copy, PartialEq, Eq, Structural, Debug)]
pub enum Font {
    Normal,
    Bold,
    Mono,
}

impl Font {
    pub open spec fn spec_char_width(self) -> int {
        match self {
            Font::Normal => 7,
            Font::Bold => 8,
            Font::Mono => 8,
        }
    }

    pub open spec fn spec_line_height(self) -> int {
        match self {
            Font::Normal => 14,
            Font::Bold => 16,
            Font::Mono => 14,
        }
    }

    pub open spec fn spec_text_height(self) -> int {
        self.spec_line_height() - 4
    }

    pub open spec fn spec_text_width(self, s: Seq<char>) -> int {
        s.len() * self.spec_char_width()
    }

    pub fn line_height(&self) -> (r: i32)
        ensures
            r == self.spec_line_height(),
    {
        match self {
            Font::Normal => 14,
            Font::Bold => 16,
            Font::Mono => 14,
        }
    }

    pub fn text_height(&self) -> (r: i32)
        ensures
            r == self.spec_text_height(),
    {
        self.line_height() - 4
    }

    pub fn text_width(&self, s: &str) -> (r: i32)
        requires
            s@.len() <= 0x10000,
        ensures
            r == self.spec_text_width(s@),
    {
        let n = s.unicode_len();
        let w = match self {
            Font::Normal => 7,
            Font::Bold => 8,
            Font::Mono => 8,
        };
        (n as i32) * w
    }
}

/// One primitive drawing operation, as the mathematical record the painting
/// contracts speak about: text is carried as its character sequence.
pub enum Draw {
    FillRoundedRect { area: Rect, fg: Color, bg: Color, radius: u8 },
    Text { baseline: Point, text: Seq<char>, font: Font, fg: Color, bg: Color },
    Icon { center: Point, data: Seq<u8>, fg: Color, bg: Color },
    DottedLine { start: Point, width: i32, color: Color },
}

/// The list of drawing operations a paint pass produced, in order. The
/// rendering backend consumes it; the widgets only ever append to it.
#[derive(Clone, PartialEq, Eq, Debug)]
pub struct DisplayList {
    ops: Vec<DrawOp>,
}

/// The executable form of one drawing operation.
#[derive(Clone, PartialEq, Eq, Debug)]
pub enum DrawOp {
    FillRoundedRect { area: Rect, fg: Color, bg: Color, radius: u8 },
    Text { baseline: Point, text: String, font: Font, fg: Color, bg: Color },
    Icon { center: Point, data: Vec<u8>, fg: Color, bg: Color },
    DottedLine { start: Point, width: i32, color: Color },
}

impl View for DrawOp {
    type V = Draw;

    open spec fn view(&self) -> Draw {
        match self {
            DrawOp::FillRoundedRect { area, fg, bg, radius } => Draw::FillRoundedRect {
                area: *area,
                fg: *fg,
                bg: *bg,
                radius: *radius,
            },
            DrawOp::Text { baseline, text, font, fg, bg } => Draw::Text {
                baseline: *baseline,
                text: text@,
                font: *font,
                fg: *fg,
                bg: *bg,
            },
            DrawOp::Icon { center, data, fg, bg } => Draw::Icon {
                center: *center,
                data: data@,
                fg: *fg,
                bg: *bg,
            },
            DrawOp::DottedLine { start, width, color } => Draw::DottedLine {
                start: *start,
                width: *width,
                color: *color,
            },
        }
    }
}

impl View for DisplayList {
    type V = Seq<Draw>;

    closed spec fn view(&self) -> Seq<Draw> {
        self.ops@.map_values(|op: DrawOp| op@)
    }
}

impl DisplayList {
    pub fn new() -> (r: DisplayList)
        ensures
            r@ == Seq::<Draw>::empty(),
    {
        let r = DisplayList { ops: Vec::new() };
        proof {
            assert(r@ =~= Seq::<Draw>::empty());
        }
        r
    }

    pub fn len(&self) -> (r: usize)
        ensures
            r == self@.len(),
    {
        self.ops.len()
    }

    /// The recorded operation at the given position.
    pub fn op_at(&self, i: usize) -> (r: &DrawOp)
        requires
            i < self@.len(),
        ensures
            r@ == self@[i as int],
    {
        &self.ops[i]
    }

    fn push_op(&mut self, op: DrawOp)
        ensures
            final(self)@ == old(self)@.push(op@),
    {
        self.ops.push(op);
        proof {
            assert(self@ =~= old(self)@.push(op@));
        }
    }

    /// Fill a rectangle with rounded corners in `fg`, over background `bg`.
    pub fn rect_fill_rounded(&mut self, area: Rect, fg: Color, bg: Color, radius: u8)
        ensures
            final(self)@ == old(self)@.push(Draw::FillRoundedRect { area, fg, bg, radius }),
    {
        self.push_op(DrawOp::FillRoundedRect { area, fg, bg, radius });
    }

    /// Draw a line of text with its baseline starting at `baseline`.
    pub fn text(&mut self, baseline: Point, text: &str, font: Font, fg: Color, bg: Color)
        ensures
            final(self)@ == old(self)@.push(
                Draw::Text { baseline, text: text@, font, fg, bg },
            ),
    {
        let owned: String = text.to_owned();
        self.push_op(DrawOp::Text { baseline, text: owned, font, fg, bg });
    }

    /// Blit an icon given by its raw bytes, centered at `center`.
    pub fn icon(&mut self, center: Point, data: &[u8], fg: Color, bg: Color)
        ensures
            final(self)@ == old(self)@.push(Draw::Icon { center, data: data@, fg, bg }),
    {
        let owned: Vec<u8> = slice_to_vec(data);
        self.push_op(DrawOp::Icon { center, data: owned, fg, bg });
    }

    /// Draw a horizontal dotted line of the given pixel width.
    pub fn dotted_line(&mut self, start: Point, width: i32, color: Color)
        ensures
            final(self)@ == old(self)@.push(Draw::DottedLine { start, width, color }),
    {
        self.push_op(DrawOp::DottedLine { start, width, color });
    }
}

fn slice_to_vec(data: &[u8]) -> (r: Vec<u8>)
    ensures
        r@ == data@,
{
    let mut v: Vec<u8> = Vec::new();
    let mut i: usize = 0;
    while i < data.len()
        invariant
            i <= data@.len(),
            v@ == data@.take(i as int),
        decreases data@.len() - i,
    {
        v.push(data[i]);
        i = i + 1;
        proof {
            assert(v@ =~= data@.take(i as int));
        }
    }
    proof {
        assert(v@ =~= data@);
    }
    v
}

} // verus!
