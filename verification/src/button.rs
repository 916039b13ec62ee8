use vstd::prelude::*;

use crate::component::Component;
use crate::display::{Color, DisplayList, Draw, Font};
use crate::event::{Event, EventCtx, TouchEvent};
use crate::geometry::{Insets, Point, Rect};
use crate::theme;

verus! {

/// The message a button reports: the touch went down on it, left it, or
/// completed a click.
#[derive(Clone, Copy, PartialEq, Eq, Structural, Debug)]
pub enum ButtonMsg {
    Pressed,
    Released,
    Clicked,
}

/// The button state machine's states. `Disabled` is entered and left only by
/// explicit calls; it absorbs every touch event.
#[derive(Clone, Copy, PartialEq, Eq, Structural, Debug)]
pub enum State {
    Initial,
    Pressed,
    Released,
    Disabled,
}

/// What a button shows: a text label or an icon given by its raw bytes.
#[derive(Clone, Debug)]
pub enum ButtonContent {
    Text(String),
    Icon(Vec<u8>),
}

/// The visual parameters of one button state.
#[derive(Clone, Copy, PartialEq, Eq, Structural, Debug)]
pub struct ButtonStyle {
    pub font: Font,
    pub text_color: Color,
    pub button_color: Color,
    pub background_color: Color,
    pub border_color: Color,
    pub border_radius: u8,
    pub border_width: i32,
}

impl ButtonStyle {
    pub open spec fn wf(self) -> bool {
        0 <= self.border_width <= 64
    }
}

/// One style per reachable visual state.
#[derive(Clone, Copy, PartialEq, Eq, Structural, Debug)]
pub struct ButtonStyleSheet {
    pub normal: ButtonStyle,
    pub active: ButtonStyle,
    pub disabled: ButtonStyle,
}

impl ButtonStyleSheet {
    pub open spec fn wf(self) -> bool {
        self.normal.wf() && self.active.wf() && self.disabled.wf()
    }
}

/// The successor state of the touch state machine, keyed on the event kind
/// and on whether the touch position lies inside the button's area.
pub open spec fn touch_next(s: State, area: Rect, e: Event) -> State {
    match e {
        Event::Touch(TouchEvent::TouchStart(p)) => if s == State::Disabled {
            s
        } else if area.spec_contains(p) {
            State::Pressed
        } else {
            s
        },
        Event::Touch(TouchEvent::TouchMove(p)) => if s == State::Released && area.spec_contains(p) {
            State::Pressed
        } else if s == State::Pressed && !area.spec_contains(p) {
            State::Released
        } else {
            s
        },
        Event::Touch(TouchEvent::TouchEnd(_)) => if s == State::Initial || s == State::Disabled {
            s
        } else {
            State::Initial
        },
        Event::Button(_) => s,
    }
}

/// The at most one message the touch state machine emits for one event.
pub open spec fn touch_msg(s: State, area: Rect, e: Event) -> Option<ButtonMsg> {
    match e {
        Event::Touch(TouchEvent::TouchStart(p)) => if s != State::Disabled && area.spec_contains(
            p,
        ) {
            Some(ButtonMsg::Pressed)
        } else {
            None
        },
        Event::Touch(TouchEvent::TouchMove(p)) => if s == State::Released && area.spec_contains(p) {
            Some(ButtonMsg::Pressed)
        } else if s == State::Pressed && !area.spec_contains(p) {
            Some(ButtonMsg::Released)
        } else {
            None
        },
        Event::Touch(TouchEvent::TouchEnd(p)) => if s == State::Pressed && area.spec_contains(p) {
            Some(ButtonMsg::Clicked)
        } else {
            None
        },
        Event::Button(_) => None,
    }
}

/// The style a sheet draws the given state with.
pub open spec fn spec_style_for(styles: ButtonStyleSheet, state: State) -> ButtonStyle {
    match state {
        State::Initial => styles.normal,
        State::Released => styles.normal,
        State::Pressed => styles.active,
        State::Disabled => styles.disabled,
    }
}

pub fn style_for(styles: &ButtonStyleSheet, state: State) -> (r: &ButtonStyle)
    ensures
        *r == spec_style_for(*styles, state),
{
    match state {
        State::Initial => &styles.normal,
        State::Released => &styles.normal,
        State::Pressed => &styles.active,
        State::Disabled => &styles.disabled,
    }
}

/// A touchscreen push button: a filled rounded rectangle showing a label or
/// an icon, driven by the state machine above.
pub struct Button {
    area: Rect,
    content: ButtonContent,
    styles: ButtonStyleSheet,
    state: State,
}

impl Button {
    pub const HEIGHT: i32 = 38;

    pub const BASELINE_OFFSET: i32 = -4;

    pub closed spec fn spec_area(&self) -> Rect {
        self.area
    }

    pub closed spec fn spec_state(&self) -> State {
        self.state
    }

    pub closed spec fn spec_content(&self) -> ButtonContent {
        self.content
    }

    pub closed spec fn spec_styles(&self) -> ButtonStyleSheet {
        self.styles
    }

    /// The label's character sequence, or the empty sequence for an icon.
    pub open spec fn spec_label(&self) -> Seq<char> {
        match self.spec_content() {
            ButtonContent::Text(t) => t@,
            ButtonContent::Icon(_) => Seq::empty(),
        }
    }

    pub closed spec fn content_wf(&self) -> bool {
        match self.content {
            ButtonContent::Text(t) => t@.len() <= 1000,
            ButtonContent::Icon(d) => d@.len() <= 0x10000,
        }
    }

    pub fn new(area: Rect, content: ButtonContent) -> (r: Button)
        requires
            area.wf(),
            (match content {
                ButtonContent::Text(t) => t@.len() <= 1000,
                ButtonContent::Icon(d) => d@.len() <= 0x10000,
            }),
        ensures
            r.inv(),
            r.spec_area() == area,
            r.spec_content() == content,
            r.spec_state() == State::Initial,
            r.spec_styles() == theme::spec_button_default(),
    {
        Button { area, content, styles: theme::button_default(), state: State::Initial }
    }

    pub fn with_text(area: Rect, text: String) -> (r: Button)
        requires
            area.wf(),
            text@.len() <= 1000,
        ensures
            r.inv(),
            r.spec_area() == area,
            r.spec_content() == ButtonContent::Text(text),
            r.spec_state() == State::Initial,
            r.spec_styles() == theme::spec_button_default(),
    {
        Button::new(area, ButtonContent::Text(text))
    }

    pub fn with_icon(area: Rect, image: Vec<u8>) -> (r: Button)
        requires
            area.wf(),
            image@.len() <= 0x10000,
        ensures
            r.inv(),
            r.spec_area() == area,
            r.spec_content() == ButtonContent::Icon(image),
            r.spec_state() == State::Initial,
            r.spec_styles() == theme::spec_button_default(),
    {
        Button::new(area, ButtonContent::Icon(image))
    }

    pub fn styled(self, styles: ButtonStyleSheet) -> (r: Button)
        requires
            styles.wf(),
        ensures
            r.spec_styles() == styles,
            r.spec_area() == self.spec_area(),
            r.spec_content() == self.spec_content(),
            r.spec_state() == self.spec_state(),
            self.inv() ==> r.inv(),
    {
        Button { styles, ..self }
    }

    /// Set the state, requesting a repaint exactly when it changed.
    fn set(&mut self, ctx: &mut EventCtx, state: State)
        ensures
            *final(self) == (Button { state, ..*old(self) }),
            final(ctx).spec_paint_requested() == (old(ctx).spec_paint_requested() || state != old(
                self,
            ).spec_state()),
    {
        if self.state != state {
            self.state = state;
            ctx.request_paint();
        }
    }

    pub fn enable(&mut self, ctx: &mut EventCtx)
        ensures
            final(self).spec_state() == State::Initial,
            final(self).spec_area() == old(self).spec_area(),
            final(self).spec_content() == old(self).spec_content(),
            final(self).spec_styles() == old(self).spec_styles(),
            old(self).inv() ==> final(self).inv(),
            final(ctx).spec_paint_requested() == (old(ctx).spec_paint_requested() || old(
                self,
            ).spec_state() != State::Initial),
    {
        self.set(ctx, State::Initial)
    }

    pub fn disable(&mut self, ctx: &mut EventCtx)
        ensures
            final(self).spec_state() == State::Disabled,
            final(self).spec_area() == old(self).spec_area(),
            final(self).spec_content() == old(self).spec_content(),
            final(self).spec_styles() == old(self).spec_styles(),
            old(self).inv() ==> final(self).inv(),
            final(ctx).spec_paint_requested() == (old(ctx).spec_paint_requested() || old(
                self,
            ).spec_state() != State::Disabled),
    {
        self.set(ctx, State::Disabled)
    }

    pub fn enabled(&mut self, ctx: &mut EventCtx, enabled: bool)
        ensures
            final(self).spec_state() == (if enabled {
                State::Initial
            } else {
                State::Disabled
            }),
            final(self).spec_area() == old(self).spec_area(),
            final(self).spec_content() == old(self).spec_content(),
            final(self).spec_styles() == old(self).spec_styles(),
            old(self).inv() ==> final(self).inv(),
            final(ctx).spec_paint_requested() == (old(ctx).spec_paint_requested() || old(
                self,
            ).spec_state() != final(self).spec_state()),
    {
        if enabled {
            self.enable(ctx);
        } else {
            self.disable(ctx);
        }
    }

    pub fn is_enabled(&self) -> (r: bool)
        ensures
            r == (self.spec_state() != State::Disabled),
    {
        match self.state {
            State::Initial => true,
            State::Pressed => true,
            State::Released => true,
            State::Disabled => false,
        }
    }

    pub fn is_disabled(&self) -> (r: bool)
        ensures
            r == (self.spec_state() == State::Disabled),
    {
        match self.state {
            State::Disabled => true,
            _ => false,
        }
    }

    pub fn content(&self) -> (r: &ButtonContent)
        ensures
            *r == self.spec_content(),
    {
        &self.content
    }

    /// The style the current state is drawn with.
    pub open spec fn spec_style(&self) -> ButtonStyle {
        match self.spec_state() {
            State::Initial => self.spec_styles().normal,
            State::Released => self.spec_styles().normal,
            State::Pressed => self.spec_styles().active,
            State::Disabled => self.spec_styles().disabled,
        }
    }

    fn style(&self) -> (r: &ButtonStyle)
        ensures
            *r == self.spec_style(),
    {
        match self.state {
            State::Initial => &self.styles.normal,
            State::Released => &self.styles.normal,
            State::Pressed => &self.styles.active,
            State::Disabled => &self.styles.disabled,
        }
    }

    /// Where the label's baseline starts: the text centered in the area.
    pub open spec fn spec_baseline(&self) -> Point {
        Point {
            x: (self.spec_area().spec_center().x - self.spec_style().font.spec_text_width(
                self.spec_label(),
            ) / 2) as i32,
            y: (self.spec_area().spec_center().y + (self.spec_style().font.spec_text_height()
                + Button::BASELINE_OFFSET) / 2) as i32,
        }
    }
}

impl Component for Button {
    type Msg = ButtonMsg;

    closed spec fn inv(&self) -> bool {
        self.area.wf() && self.styles.wf() && self.content_wf()
    }

    closed spec fn place_spec(&self, bounds: Rect) -> (Button, Rect) {
        (Button { area: bounds, ..*self }, bounds)
    }

    fn place(&mut self, bounds: Rect) -> (r: Rect)
        ensures
            final(self).spec_area() == bounds,
    {
        self.area = bounds;
        bounds
    }

    proof fn lemma_place_idempotent(&self, bounds: Rect) {
    }

    closed spec fn event_spec(&self, event: Event) -> (Button, Option<ButtonMsg>, bool) {
        (
            Button { state: touch_next(self.state, self.area, event), ..*self },
            touch_msg(self.state, self.area, event),
            touch_next(self.state, self.area, event) != self.state,
        )
    }

    fn event(&mut self, ctx: &mut EventCtx, event: Event) -> (m: Option<ButtonMsg>)
        ensures
            final(self).spec_state() == touch_next(
                old(self).spec_state(),
                old(self).spec_area(),
                event,
            ),
            m == touch_msg(old(self).spec_state(), old(self).spec_area(), event),
    {
        match event {
            Event::Touch(TouchEvent::TouchStart(pos)) => {
                match self.state {
                    State::Disabled => {},
                    _ => {
                        if self.area.contains(pos) {
                            self.set(ctx, State::Pressed);
                            return Some(ButtonMsg::Pressed);
                        }
                    },
                }
            },
            Event::Touch(TouchEvent::TouchMove(pos)) => {
                match self.state {
                    State::Released => {
                        if self.area.contains(pos) {
                            self.set(ctx, State::Pressed);
                            return Some(ButtonMsg::Pressed);
                        }
                    },
                    State::Pressed => {
                        if !self.area.contains(pos) {
                            self.set(ctx, State::Released);
                            return Some(ButtonMsg::Released);
                        }
                    },
                    _ => {},
                }
            },
            Event::Touch(TouchEvent::TouchEnd(pos)) => {
                match self.state {
                    State::Initial => {},
                    State::Disabled => {},
                    State::Pressed => {
                        if self.area.contains(pos) {
                            self.set(ctx, State::Initial);
                            return Some(ButtonMsg::Clicked);
                        } else {
                            self.set(ctx, State::Initial);
                        }
                    },
                    State::Released => {
                        self.set(ctx, State::Initial);
                    },
                }
            },
            Event::Button(_) => {},
        }
        None
    }

    closed spec fn paint_spec(&self) -> Seq<Draw> {
        let style = self.spec_style();
        let back = if style.border_width > 0 {
            seq![
                Draw::FillRoundedRect {
                    area: self.area,
                    fg: style.border_color,
                    bg: style.background_color,
                    radius: style.border_radius,
                },
                Draw::FillRoundedRect {
                    area: self.area.spec_inset(
                        Insets {
                            top: style.border_width,
                            right: style.border_width,
                            bottom: style.border_width,
                            left: style.border_width,
                        },
                    ),
                    fg: style.button_color,
                    bg: style.border_color,
                    radius: style.border_radius,
                },
            ]
        } else {
            seq![
                Draw::FillRoundedRect {
                    area: self.area,
                    fg: style.button_color,
                    bg: style.background_color,
                    radius: style.border_radius,
                },
            ]
        };
        let front = match self.spec_content() {
            ButtonContent::Text(t) => seq![
                Draw::Text {
                    baseline: self.spec_baseline(),
                    text: t@,
                    font: style.font,
                    fg: style.text_color,
                    bg: style.button_color,
                },
            ],
            ButtonContent::Icon(d) => seq![
                Draw::Icon {
                    center: self.area.spec_center(),
                    data: d@,
                    fg: style.text_color,
                    bg: style.button_color,
                },
            ],
        };
        back + front
    }

    fn paint(&self, d: &mut DisplayList) {
        let style = *self.style();
        if style.border_width > 0 {
            d.rect_fill_rounded(
                self.area,
                style.border_color,
                style.background_color,
                style.border_radius,
            );
            d.rect_fill_rounded(
                self.area.inset(Insets::uniform(style.border_width)),
                style.button_color,
                style.border_color,
                style.border_radius,
            );
        } else {
            d.rect_fill_rounded(
                self.area,
                style.button_color,
                style.background_color,
                style.border_radius,
            );
        }
        match &self.content {
            ButtonContent::Text(text) => {
                let width = style.font.text_width(text.as_str());
                let height = style.font.text_height() + Button::BASELINE_OFFSET;
                let center = self.area.center();
                let baseline = Point::new(center.x - width / 2, center.y + height / 2);
                d.text(baseline, text.as_str(), style.font, style.text_color, style.button_color);
            },
            ButtonContent::Icon(icon) => {
                d.icon(self.area.center(), icon.as_slice(), style.text_color, style.button_color);
            },
        }
        proof {
            assert(d@ =~= old(d)@ + self.paint_spec());
        }
    }
}

/// A left/right pair of touch buttons sharing one row: the left takes the
/// first of four grid columns, the right spans the remaining three. Its
/// message is the confirmation outcome: `false` for the left (cancel)
/// button's click, `true` for the right (confirm) one's.
pub struct ButtonArray {
    pub left: Button,
    pub right: Button,
}

impl ButtonArray {
    pub const BUTTON_SPACING: i32 = 6;

    /// The two cells the row is split into.
    pub open spec fn spec_cells(area: Rect) -> (Rect, Rect) {
        let grid = crate::geometry::Grid { area, rows: 1, cols: 4, spacing: 6 };
        (
            grid.spec_row_col(0, 0),
            Rect {
                x0: grid.spec_row_col(0, 1).x0,
                y0: grid.spec_row_col(0, 1).y0,
                x1: grid.spec_row_col(0, 3).x1,
                y1: grid.spec_row_col(0, 3).y1,
            },
        )
    }

    pub fn new(area: Rect, left: Button, right: Button) -> (r: ButtonArray)
        requires
            area.wf(),
            left.inv(),
            right.inv(),
        ensures
            r.inv(),
            r.left == left.place_spec(ButtonArray::spec_cells(area).0).0,
            r.right == right.place_spec(ButtonArray::spec_cells(area).1).0,
    {
        let grid = crate::geometry::Grid::new(area, 1, 4).with_spacing(ButtonArray::BUTTON_SPACING);
        let cell_left = grid.row_col(0, 0);
        let c1 = grid.row_col(0, 1);
        let c3 = grid.row_col(0, 3);
        let cell_right = Rect::new(c1.top_left(), c3.bottom_right());
        let mut left = left;
        let mut right = right;
        left.place(cell_left);
        right.place(cell_right);
        ButtonArray { left, right }
    }
}

impl Component for ButtonArray {
    type Msg = bool;

    closed spec fn inv(&self) -> bool {
        self.left.inv() && self.right.inv()
    }

    closed spec fn place_spec(&self, bounds: Rect) -> (ButtonArray, Rect) {
        (
            ButtonArray {
                left: self.left.place_spec(ButtonArray::spec_cells(bounds).0).0,
                right: self.right.place_spec(ButtonArray::spec_cells(bounds).1).0,
            },
            bounds,
        )
    }

    fn place(&mut self, bounds: Rect) -> (r: Rect) {
        let grid = crate::geometry::Grid::new(bounds, 1, 4).with_spacing(
            ButtonArray::BUTTON_SPACING,
        );
        let cell_left = grid.row_col(0, 0);
        let c1 = grid.row_col(0, 1);
        let c3 = grid.row_col(0, 3);
        let cell_right = Rect::new(c1.top_left(), c3.bottom_right());
        self.left.place(cell_left);
        self.right.place(cell_right);
        bounds
    }

    proof fn lemma_place_idempotent(&self, bounds: Rect) {
    }

    closed spec fn event_spec(&self, event: Event) -> (ButtonArray, Option<bool>, bool) {
        let left_step = self.left.event_spec(event);
        let right_step = self.right.event_spec(event);
        if left_step.1 == Some(ButtonMsg::Clicked) {
            ((ButtonArray { left: left_step.0, right: self.right }), Some(false), left_step.2)
        } else {
            (
                (ButtonArray { left: left_step.0, right: right_step.0 }),
                if right_step.1 == Some(ButtonMsg::Clicked) {
                    Some(true)
                } else {
                    None
                },
                left_step.2 || right_step.2,
            )
        }
    }

    fn event(&mut self, ctx: &mut EventCtx, event: Event) -> (m: Option<bool>) {
        if let Some(msg) = self.left.event(ctx, event) {
            if let ButtonMsg::Clicked = msg {
                return Some(false);
            }
        }
        if let Some(msg) = self.right.event(ctx, event) {
            if let ButtonMsg::Clicked = msg {
                return Some(true);
            }
        }
        None
    }

    closed spec fn paint_spec(&self) -> Seq<Draw> {
        self.left.paint_spec() + self.right.paint_spec()
    }

    fn paint(&self, d: &mut DisplayList) {
        self.left.paint(d);
        self.right.paint(d);
        proof {
            assert(d@ =~= old(d)@ + self.paint_spec());
        }
    }
}


/// The state the touch machine reaches after a sequence of events, from
/// state `s0`.
pub open spec fn touch_run(s0: State, area: Rect, es: Seq<Event>) -> State
    decreases es.len(),
{
    if es.len() == 0 {
        s0
    } else {
        touch_next(touch_run(s0, area, es.drop_last()), area, es.last())
    }
}

/// Whether a touch gesture is in progress after the sequence: a start opens
/// one, the matching end closes it.
pub open spec fn touch_active(es: Seq<Event>) -> bool
    decreases es.len(),
{
    if es.len() == 0 {
        false
    } else {
        match es.last() {
            Event::Touch(TouchEvent::TouchStart(_)) => true,
            Event::Touch(TouchEvent::TouchEnd(_)) => false,
            _ => touch_active(es.drop_last()),
        }
    }
}

/// The sequence is a linear delivery of whole gestures, as the hardware
/// produces them: a touch starts only when no gesture is in progress, and
/// moves and ends only within one.
pub open spec fn touch_seq_wf(es: Seq<Event>) -> bool
    decreases es.len(),
{
    if es.len() == 0 {
        true
    } else {
        touch_seq_wf(es.drop_last()) && (match es.last() {
            Event::Touch(TouchEvent::TouchStart(_)) => !touch_active(es.drop_last()),
            Event::Touch(TouchEvent::TouchMove(_)) => touch_active(es.drop_last()),
            Event::Touch(TouchEvent::TouchEnd(_)) => touch_active(es.drop_last()),
            Event::Button(_) => true,
        })
    }
}

/// The gesture in progress began with a touch inside the area.
pub open spec fn gesture_started_inside(area: Rect, es: Seq<Event>) -> bool
    decreases es.len(),
{
    if es.len() == 0 {
        false
    } else {
        match es.last() {
            Event::Touch(TouchEvent::TouchStart(p)) => area.spec_contains(p),
            Event::Touch(TouchEvent::TouchEnd(_)) => false,
            _ => gesture_started_inside(area, es.drop_last()),
        }
    }
}

/// The latest reported touch position lies inside the area.
pub open spec fn last_touch_inside(area: Rect, es: Seq<Event>) -> bool
    decreases es.len(),
{
    if es.len() == 0 {
        false
    } else {
        match es.last() {
            Event::Touch(TouchEvent::TouchStart(p)) => area.spec_contains(p),
            Event::Touch(TouchEvent::TouchMove(p)) => area.spec_contains(p),
            Event::Touch(TouchEvent::TouchEnd(p)) => area.spec_contains(p),
            Event::Button(_) => last_touch_inside(area, es.drop_last()),
        }
    }
}

/// A disabled button absorbs every touch event: no transition, no message.
pub proof fn lemma_disabled_absorbs(area: Rect, e: Event)
    ensures
        touch_next(State::Disabled, area, e) == State::Disabled,
        touch_msg(State::Disabled, area, e) is None,
{
}

/// Where the touch machine stands after any well-formed delivery, run from
/// the initial state with no disabling in between: it is pressed exactly
/// while a gesture that began inside is currently inside, released exactly
/// while such a gesture has strayed outside, and idle otherwise; it is
/// never disabled.
pub proof fn lemma_touch_run_characterization(area: Rect, es: Seq<Event>)
    requires
        touch_seq_wf(es),
    ensures
        touch_run(State::Initial, area, es) != State::Disabled,
        !touch_active(es) ==> !gesture_started_inside(area, es),
        !touch_active(es) ==> touch_run(State::Initial, area, es) == State::Initial,
        touch_active(es) ==> (touch_run(State::Initial, area, es) == State::Pressed <==> (
        gesture_started_inside(area, es) && last_touch_inside(area, es))),
        touch_active(es) ==> (touch_run(State::Initial, area, es) == State::Released <==> (
        gesture_started_inside(area, es) && !last_touch_inside(area, es))),
        touch_active(es) && !gesture_started_inside(area, es) ==> touch_run(
            State::Initial,
            area,
            es,
        ) == State::Initial,
    decreases es.len(),
{
    if es.len() > 0 {
        lemma_touch_run_characterization(area, es.drop_last());
    }
}

/// A `Clicked` message arises at the i-th event exactly when that event
/// ends, inside the area, a touch gesture that began inside it and stands
/// inside it: a touch path that started and ended on the button, with no
/// disabling in between since the run starts from the initial state.
pub proof fn lemma_clicked_iff(area: Rect, es: Seq<Event>, i: int)
    requires
        0 <= i < es.len(),
        touch_seq_wf(es.take(i)),
    ensures
        touch_msg(touch_run(State::Initial, area, es.take(i)), area, es[i]) == Some(
            ButtonMsg::Clicked,
        ) <==> (match es[i] {
            Event::Touch(TouchEvent::TouchEnd(p)) => area.spec_contains(p)
                && gesture_started_inside(area, es.take(i)) && last_touch_inside(
                area,
                es.take(i),
            ),
            _ => false,
        }),
{
    lemma_touch_run_characterization(area, es.take(i));
}

} // verus!
