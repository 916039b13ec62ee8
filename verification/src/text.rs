use vstd::prelude::*;

use vstd::string::StringExecFns;

use crate::component::{Component, Paginate};
use crate::display::{DisplayList, Draw, Font};
use crate::event::{Event, EventCtx};
use crate::geometry::{Point, Rect};
use crate::theme;

verus! {

/// A template text with named parameters, handed to the text-layout engine
/// at draw time. The engine's token expansion and line wrapping are outside
/// this core; here the template and its arguments are carried verbatim and
/// painting records the template over its area.
pub struct FormattedText {
    area: Rect,
    format: String,
    args: Vec<(String, String)>,
}

impl FormattedText {
    pub closed spec fn spec_format(&self) -> Seq<char> {
        self.format@
    }

    pub closed spec fn spec_args(&self) -> Seq<(Seq<char>, Seq<char>)> {
        self.args@.map_values(|p: (String, String)| (p.0@, p.1@))
    }

    pub closed spec fn spec_area(&self) -> Rect {
        self.area
    }

    pub fn new(format: String) -> (r: FormattedText)
        ensures
            r.inv(),
            r.spec_format() == format@,
            r.spec_args() == Seq::<(Seq<char>, Seq<char>)>::empty(),
    {
        let r = FormattedText { area: Rect { x0: 0, y0: 0, x1: 0, y1: 0 }, format, args: Vec::new() };
        proof {
            assert(r.spec_args() =~= Seq::<(Seq<char>, Seq<char>)>::empty());
        }
        r
    }

    /// Bind one named parameter.
    pub fn with(self, key: &str, value: &str) -> (r: FormattedText)
        ensures
            r.spec_format() == self.spec_format(),
            r.spec_args() == self.spec_args().push((key@, value@)),
            r.spec_area() == self.spec_area(),
            self.inv() ==> r.inv(),
    {
        let mut args = self.args;
        args.push((key.to_owned(), value.to_owned()));
        let r = FormattedText { args, ..self };
        proof {
            assert(r.spec_args() =~= self.spec_args().push((key@, value@)));
        }
        r
    }
}

impl Component for FormattedText {
    type Msg = ();

    closed spec fn inv(&self) -> bool {
        self.area.wf()
    }

    closed spec fn place_spec(&self, bounds: Rect) -> (FormattedText, Rect) {
        (FormattedText { area: bounds, ..*self }, bounds)
    }

    fn place(&mut self, bounds: Rect) -> (r: Rect) {
        self.area = bounds;
        bounds
    }

    proof fn lemma_place_idempotent(&self, bounds: Rect) {
    }

    closed spec fn event_spec(&self, event: Event) -> (FormattedText, Option<()>, bool) {
        (*self, None, false)
    }

    fn event(&mut self, ctx: &mut EventCtx, event: Event) -> (m: Option<()>) {
        None
    }

    closed spec fn paint_spec(&self) -> Seq<Draw> {
        seq![
            Draw::Text {
                baseline: Point { x: self.area.x0, y: (self.area.y0 + 10) as i32 },
                text: self.format@,
                font: Font::Normal,
                fg: theme::spec_fg(),
                bg: theme::spec_bg(),
            },
        ]
    }

    fn paint(&self, d: &mut DisplayList) {
        d.text(
            Point::new(self.area.x0, self.area.y0 + 10),
            self.format.as_str(),
            Font::Normal,
            theme::fg(),
            theme::bg(),
        );
        proof {
            assert(d@ =~= old(d)@ + self.paint_spec());
        }
    }
}

impl Paginate for FormattedText {
    open spec fn spec_page_count(&self) -> int {
        1
    }

    proof fn lemma_page_count_pos(&self) {
    }

    proof fn lemma_event_keeps_page_count(&self, event: Event) {
    }

    proof fn lemma_place_keeps_page_count(&self, bounds: Rect) {
    }

    fn page_count(&self) -> (r: usize) {
        1
    }

    open spec fn change_page_spec(&self, page: int) -> FormattedText {
        *self
    }

    fn change_page(&mut self, page: usize) {
    }
}

/// One paragraph: a font and its text.
pub struct Paragraph {
    font: Font,
    text: String,
}

/// A stack of paragraphs drawn top to bottom on a fixed row pitch. The
/// wrapping of long paragraphs onto further lines or pages belongs to the
/// text-layout engine outside this core.
pub struct Paragraphs {
    area: Rect,
    items: Vec<Paragraph>,
}

pub const LINE_PITCH: i32 = 16;

impl Paragraphs {
    pub closed spec fn spec_items(&self) -> Seq<(Font, Seq<char>)> {
        self.items@.map_values(|p: Paragraph| (p.font, p.text@))
    }

    pub closed spec fn spec_area(&self) -> Rect {
        self.area
    }

    pub fn new() -> (r: Paragraphs)
        ensures
            r.inv(),
            r.spec_items() == Seq::<(Font, Seq<char>)>::empty(),
    {
        let r = Paragraphs { area: Rect { x0: 0, y0: 0, x1: 0, y1: 0 }, items: Vec::new() };
        proof {
            assert(r.spec_items() =~= Seq::<(Font, Seq<char>)>::empty());
        }
        r
    }

    /// Append one paragraph; the stack is bounded as everything on the
    /// device is.
    pub fn add(self, font: Font, text: String) -> (r: Paragraphs)
        requires
            self.spec_items().len() < 100,
        ensures
            r.spec_items() == self.spec_items().push((font, text@)),
            r.spec_area() == self.spec_area(),
            self.inv() ==> r.inv(),
    {
        let mut items = self.items;
        items.push(Paragraph { font, text });
        let r = Paragraphs { items, ..self };
        proof {
            assert(r.spec_items() =~= self.spec_items().push((font, text@)));
        }
        r
    }
}

impl Component for Paragraphs {
    type Msg = ();

    closed spec fn inv(&self) -> bool {
        self.area.wf() && self.items@.len() <= 100
    }

    closed spec fn place_spec(&self, bounds: Rect) -> (Paragraphs, Rect) {
        (Paragraphs { area: bounds, ..*self }, bounds)
    }

    fn place(&mut self, bounds: Rect) -> (r: Rect) {
        self.area = bounds;
        bounds
    }

    proof fn lemma_place_idempotent(&self, bounds: Rect) {
    }

    closed spec fn event_spec(&self, event: Event) -> (Paragraphs, Option<()>, bool) {
        (*self, None, false)
    }

    fn event(&mut self, ctx: &mut EventCtx, event: Event) -> (m: Option<()>) {
        None
    }

    closed spec fn paint_spec(&self) -> Seq<Draw> {
        Seq::new(
            self.spec_items().len(),
            |i: int|
                Draw::Text {
                    baseline: Point {
                        x: self.area.x0,
                        y: (self.area.y0 + LINE_PITCH * (i + 1)) as i32,
                    },
                    text: self.spec_items()[i].1,
                    font: self.spec_items()[i].0,
                    fg: theme::spec_fg(),
                    bg: theme::spec_bg(),
                },
        )
    }

    fn paint(&self, d: &mut DisplayList) {
        let fg = theme::fg();
        let bg = theme::bg();
        let mut i: usize = 0;
        while i < self.items.len()
            invariant
                self.inv(),
                i <= self.items@.len(),
                fg == theme::spec_fg(),
                bg == theme::spec_bg(),
                d@ == old(d)@ + self.paint_spec().take(i as int),
            decreases self.items@.len() - i,
        {
            let p = &self.items[i];
            let y = self.area.y0 + LINE_PITCH * ((i as i32) + 1);
            d.text(Point::new(self.area.x0, y), p.text.as_str(), p.font, fg, bg);
            proof {
                let j = i as int;
                assert(self.spec_items()[j] == (self.items@[j].font, self.items@[j].text@));
                assert(self.paint_spec()[j] == (Draw::Text {
                    baseline: Point {
                        x: self.area.x0,
                        y: (self.area.y0 + LINE_PITCH * (j + 1)) as i32,
                    },
                    text: self.spec_items()[j].1,
                    font: self.spec_items()[j].0,
                    fg: theme::spec_fg(),
                    bg: theme::spec_bg(),
                }));
            }
            i = i + 1;
            proof {
                let j = i as int - 1;
                assert(d@ == (old(d)@ + self.paint_spec().take(j)).push(self.paint_spec()[j]));
                assert((old(d)@ + self.paint_spec().take(j)).push(self.paint_spec()[j]) =~= old(
                    d,
                )@ + self.paint_spec().take(j + 1));
                assert(d@ == old(d)@ + self.paint_spec().take(i as int));
            }
        }
        proof {
            assert(d@ =~= old(d)@ + self.paint_spec());
        }
    }
}

impl Paginate for Paragraphs {
    open spec fn spec_page_count(&self) -> int {
        1
    }

    proof fn lemma_page_count_pos(&self) {
    }

    proof fn lemma_event_keeps_page_count(&self, event: Event) {
    }

    proof fn lemma_place_keeps_page_count(&self, bounds: Rect) {
    }

    fn page_count(&self) -> (r: usize) {
        1
    }

    open spec fn change_page_spec(&self, page: int) -> Paragraphs {
        *self
    }

    fn change_page(&mut self, page: usize) {
    }
}

} // verus!
