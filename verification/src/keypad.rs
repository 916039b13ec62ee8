use vstd::prelude::*;

use crate::button::{ButtonMsg, ButtonStyleSheet, State};
use crate::component::Component;
use crate::display::{DisplayList, Draw};
use crate::event::{ButtonEvent, Event, EventCtx, PhysicalButton};
use crate::geometry::Rect;

verus! {

/// The slot a key-driven button occupies in the bottom row, which also says
/// which physical input it owns: the left key, the right key, or the
/// synthesized both-keys input.
#[derive(Clone, Copy, PartialEq, Eq, Structural, Debug)]
pub enum ButtonPos {
    Left,
    Middle,
    Right,
}

/// Whether a button in the given slot owns the given physical input.
pub open spec fn spec_pos_hit(pos: ButtonPos, b: PhysicalButton) -> bool {
    match (pos, b) {
        (ButtonPos::Left, PhysicalButton::Left) => true,
        (ButtonPos::Right, PhysicalButton::Right) => true,
        (ButtonPos::Middle, PhysicalButton::Both) => true,
        _ => false,
    }
}

pub fn pos_hit(pos: ButtonPos, b: PhysicalButton) -> (r: bool)
    ensures
        r == spec_pos_hit(pos, b),
{
    match (pos, b) {
        (ButtonPos::Left, PhysicalButton::Left) => true,
        (ButtonPos::Right, PhysicalButton::Right) => true,
        (ButtonPos::Middle, PhysicalButton::Both) => true,
        _ => false,
    }
}

/// The successor state of the key-driven button state machine: the same
/// three reported messages as the touch machine, driven by discrete press
/// and release of the one physical input this button owns.
pub open spec fn key_next(s: State, pos: ButtonPos, e: Event) -> State {
    match e {
        Event::Button(ButtonEvent::Pressed(b)) => if s != State::Disabled && spec_pos_hit(pos, b) {
            State::Pressed
        } else {
            s
        },
        Event::Button(ButtonEvent::Released(b)) => if s != State::Disabled && spec_pos_hit(pos, b) {
            State::Initial
        } else {
            s
        },
        Event::Touch(_) => s,
    }
}

/// The at most one message the key-driven state machine emits per event: a
/// press of the owned key reports `Pressed`, its release while pressed
/// completes a `Clicked`.
pub open spec fn key_msg(s: State, pos: ButtonPos, e: Event) -> Option<ButtonMsg> {
    match e {
        Event::Button(ButtonEvent::Pressed(b)) => if s != State::Disabled && spec_pos_hit(pos, b) {
            Some(ButtonMsg::Pressed)
        } else {
            None
        },
        Event::Button(ButtonEvent::Released(b)) => if s == State::Pressed && spec_pos_hit(pos, b) {
            Some(ButtonMsg::Clicked)
        } else {
            None
        },
        Event::Touch(_) => None,
    }
}

/// A push button on two-button hardware: a labeled slot in the bottom row
/// that reacts to the one physical input it owns.
pub struct KeyButton {
    pos: ButtonPos,
    area: Rect,
    text: String,
    styles: ButtonStyleSheet,
    state: State,
}

impl KeyButton {
    pub closed spec fn spec_pos(&self) -> ButtonPos {
        self.pos
    }

    pub closed spec fn spec_area(&self) -> Rect {
        self.area
    }

    pub closed spec fn spec_text(&self) -> Seq<char> {
        self.text@
    }

    pub closed spec fn spec_styles(&self) -> ButtonStyleSheet {
        self.styles
    }

    pub closed spec fn spec_state(&self) -> State {
        self.state
    }

    pub fn with_text(pos: ButtonPos, text: String, styles: ButtonStyleSheet) -> (r: KeyButton)
        requires
            text@.len() <= 1000,
            styles.wf(),
        ensures
            r.inv(),
            r.spec_pos() == pos,
            r.spec_text() == text@,
            r.spec_styles() == styles,
            r.spec_state() == State::Initial,
            r.spec_area() == (Rect { x0: 0, y0: 0, x1: 0, y1: 0 }),
    {
        KeyButton { pos, area: Rect { x0: 0, y0: 0, x1: 0, y1: 0 }, text, styles, state: State::Initial }
    }

    /// Force the released visual state, repainting exactly when that is a
    /// change; no message is produced. The owning page uses this while a
    /// both-keys press is in progress so the display does not keep showing
    /// a separately active button.
    pub fn set_released(&mut self, ctx: &mut EventCtx)
        ensures
            *final(self) == old(self).spec_set_released(),
            final(self).spec_state() == State::Released,
            final(self).spec_pos() == old(self).spec_pos(),
            final(self).spec_area() == old(self).spec_area(),
            final(self).spec_text() == old(self).spec_text(),
            final(self).spec_styles() == old(self).spec_styles(),
            old(self).inv() ==> final(self).inv(),
            final(ctx).spec_paint_requested() == (old(ctx).spec_paint_requested() || old(
                self,
            ).spec_state() != State::Released),
    {
        if !matches!(self.state, State::Released) {
            self.state = State::Released;
            ctx.request_paint();
        }
    }

    /// The released-state successor, for speaking about `set_released` in
    /// the page's own model.
    pub closed spec fn spec_set_released(self) -> KeyButton {
        KeyButton { state: State::Released, ..self }
    }

    pub open spec fn spec_style(&self) -> crate::button::ButtonStyle {
        match self.spec_state() {
            State::Initial => self.spec_styles().normal,
            State::Released => self.spec_styles().normal,
            State::Pressed => self.spec_styles().active,
            State::Disabled => self.spec_styles().disabled,
        }
    }

    /// Where the label's baseline starts: the text centered in the area.
    pub open spec fn spec_baseline(&self) -> crate::geometry::Point {
        crate::geometry::Point {
            x: (self.spec_area().spec_center().x - self.spec_style().font.spec_text_width(
                self.spec_text(),
            ) / 2) as i32,
            y: (self.spec_area().spec_center().y + (self.spec_style().font.spec_text_height()
                - 4) / 2) as i32,
        }
    }
}

impl Component for KeyButton {
    type Msg = ButtonMsg;

    closed spec fn inv(&self) -> bool {
        self.area.wf() && self.styles.wf() && self.text@.len() <= 1000
    }

    closed spec fn place_spec(&self, bounds: Rect) -> (KeyButton, Rect) {
        let cell = match self.pos {
            ButtonPos::Left => bounds.spec_column(0, 3),
            ButtonPos::Middle => bounds.spec_column(1, 3),
            ButtonPos::Right => bounds.spec_column(2, 3),
        };
        (KeyButton { area: cell, ..*self }, cell)
    }

    fn place(&mut self, bounds: Rect) -> (r: Rect) {
        let c = match self.pos {
            ButtonPos::Left => 0,
            ButtonPos::Middle => 1,
            ButtonPos::Right => 2,
        };
        let cell = bounds.column(c, 3);
        self.area = cell;
        cell
    }

    proof fn lemma_place_idempotent(&self, bounds: Rect) {
    }

    closed spec fn event_spec(&self, event: Event) -> (KeyButton, Option<ButtonMsg>, bool) {
        (
            KeyButton { state: key_next(self.state, self.pos, event), ..*self },
            key_msg(self.state, self.pos, event),
            key_next(self.state, self.pos, event) != self.state,
        )
    }

    fn event(&mut self, ctx: &mut EventCtx, event: Event) -> (m: Option<ButtonMsg>)
        ensures
            final(self).spec_state() == key_next(
                old(self).spec_state(),
                old(self).spec_pos(),
                event,
            ),
            m == key_msg(old(self).spec_state(), old(self).spec_pos(), event),
    {
        match event {
            Event::Button(ButtonEvent::Pressed(b)) => {
                if !matches!(self.state, State::Disabled) && pos_hit(self.pos, b) {
                    let changed = !matches!(self.state, State::Pressed);
                    self.state = State::Pressed;
                    if changed {
                        ctx.request_paint();
                    }
                    return Some(ButtonMsg::Pressed);
                }
            },
            Event::Button(ButtonEvent::Released(b)) => {
                if !matches!(self.state, State::Disabled) && pos_hit(self.pos, b) {
                    let was_pressed = matches!(self.state, State::Pressed);
                    let changed = !matches!(self.state, State::Initial);
                    self.state = State::Initial;
                    if changed {
                        ctx.request_paint();
                    }
                    if was_pressed {
                        return Some(ButtonMsg::Clicked);
                    }
                }
            },
            Event::Touch(_) => {},
        }
        None
    }

    closed spec fn paint_spec(&self) -> Seq<Draw> {
        let style = self.spec_style();
        seq![
            Draw::FillRoundedRect {
                area: self.area,
                fg: style.button_color,
                bg: style.background_color,
                radius: style.border_radius,
            },
            Draw::Text {
                baseline: self.spec_baseline(),
                text: self.text@,
                font: style.font,
                fg: style.text_color,
                bg: style.button_color,
            },
        ]
    }

    fn paint(&self, d: &mut DisplayList) {
        let style = *crate::button::style_for(&self.styles, self.state);
        let width = style.font.text_width(self.text.as_str());
        let height = style.font.text_height() - 4;
        let center = self.area.center();
        let baseline = crate::geometry::Point::new(center.x - width / 2, center.y + height / 2);
        d.rect_fill_rounded(self.area, style.button_color, style.background_color, style.border_radius);
        d.text(baseline, self.text.as_str(), style.font, style.text_color, style.button_color);
        proof {
            assert(d@ =~= old(d)@ + self.paint_spec());
        }
    }
}

/// The event pre-processor of two-button hardware: it watches raw key
/// presses and releases and synthesizes the third, logical "both keys"
/// input out of an overlap of the two, suppressing the raw events that make
/// up the overlap so downstream buttons never see them.
pub struct BothButtonPressHandler {
    left_held: bool,
    right_held: bool,
    both_mode: bool,
}

/// The handler's model: which keys are held, and whether a both-keys
/// overlap is in progress (set when the second key goes down, cleared only
/// once both keys are up again).
#[derive(Clone, Copy, PartialEq, Eq, Structural, Debug)]
pub struct BbpState {
    pub left_held: bool,
    pub right_held: bool,
    pub both_mode: bool,
}

pub open spec fn bbp_initial() -> BbpState {
    BbpState { left_held: false, right_held: false, both_mode: false }
}

/// The handler's successor state for one raw event.
pub open spec fn bbp_next(h: BbpState, e: Event) -> BbpState {
    match e {
        Event::Button(ButtonEvent::Pressed(PhysicalButton::Left)) => BbpState {
            left_held: true,
            both_mode: h.both_mode || h.right_held,
            ..h
        },
        Event::Button(ButtonEvent::Pressed(PhysicalButton::Right)) => BbpState {
            right_held: true,
            both_mode: h.both_mode || h.left_held,
            ..h
        },
        Event::Button(ButtonEvent::Released(PhysicalButton::Left)) => BbpState {
            left_held: false,
            both_mode: h.both_mode && h.right_held,
            ..h
        },
        Event::Button(ButtonEvent::Released(PhysicalButton::Right)) => BbpState {
            right_held: false,
            both_mode: h.both_mode && h.left_held,
            ..h
        },
        _ => h,
    }
}

/// What the handler forwards downstream for one raw event: the event
/// unchanged in plain single-key flow, the synthesized both-keys press or
/// release at the edges of an overlap, and nothing in its interior.
pub open spec fn bbp_out(h: BbpState, e: Event) -> Option<Event> {
    match e {
        Event::Button(ButtonEvent::Pressed(PhysicalButton::Left)) => if h.both_mode {
            None
        } else if h.right_held {
            Some(Event::Button(ButtonEvent::Pressed(PhysicalButton::Both)))
        } else {
            Some(e)
        },
        Event::Button(ButtonEvent::Pressed(PhysicalButton::Right)) => if h.both_mode {
            None
        } else if h.left_held {
            Some(Event::Button(ButtonEvent::Pressed(PhysicalButton::Both)))
        } else {
            Some(e)
        },
        Event::Button(ButtonEvent::Released(PhysicalButton::Left)) => if h.both_mode
            && h.right_held {
            Some(Event::Button(ButtonEvent::Released(PhysicalButton::Both)))
        } else {
            Some(e)
        },
        Event::Button(ButtonEvent::Released(PhysicalButton::Right)) => if h.both_mode
            && h.left_held {
            Some(Event::Button(ButtonEvent::Released(PhysicalButton::Both)))
        } else {
            Some(e)
        },
        _ => Some(e),
    }
}

impl BothButtonPressHandler {
    pub closed spec fn view_state(&self) -> BbpState {
        BbpState {
            left_held: self.left_held,
            right_held: self.right_held,
            both_mode: self.both_mode,
        }
    }

    pub fn new() -> (r: BothButtonPressHandler)
        ensures
            r.view_state() == bbp_initial(),
    {
        BothButtonPressHandler { left_held: false, right_held: false, both_mode: false }
    }

    /// The handler after feeding one raw event, as a value, so an owning
    /// page can speak of its own successor state exactly.
    pub closed spec fn spec_step(self, event: Event) -> BothButtonPressHandler {
        BothButtonPressHandler {
            left_held: bbp_next(self.view_state(), event).left_held,
            right_held: bbp_next(self.view_state(), event).right_held,
            both_mode: bbp_next(self.view_state(), event).both_mode,
        }
    }

    /// Feed one raw event through the aggregation: the result is the event
    /// to deliver downstream, if any.
    pub fn possibly_replace_event(&mut self, event: Event) -> (r: Option<Event>)
        ensures
            *final(self) == old(self).spec_step(event),
            final(self).view_state() == bbp_next(old(self).view_state(), event),
            r == bbp_out(old(self).view_state(), event),
    {
        match event {
            Event::Button(ButtonEvent::Pressed(PhysicalButton::Left)) => {
                let out = if self.both_mode {
                    None
                } else if self.right_held {
                    Some(Event::Button(ButtonEvent::Pressed(PhysicalButton::Both)))
                } else {
                    Some(event)
                };
                self.both_mode = self.both_mode || self.right_held;
                self.left_held = true;
                out
            },
            Event::Button(ButtonEvent::Pressed(PhysicalButton::Right)) => {
                let out = if self.both_mode {
                    None
                } else if self.left_held {
                    Some(Event::Button(ButtonEvent::Pressed(PhysicalButton::Both)))
                } else {
                    Some(event)
                };
                self.both_mode = self.both_mode || self.left_held;
                self.right_held = true;
                out
            },
            Event::Button(ButtonEvent::Released(PhysicalButton::Left)) => {
                let out = if self.both_mode && self.right_held {
                    Some(Event::Button(ButtonEvent::Released(PhysicalButton::Both)))
                } else {
                    Some(event)
                };
                self.both_mode = self.both_mode && self.right_held;
                self.left_held = false;
                out
            },
            Event::Button(ButtonEvent::Released(PhysicalButton::Right)) => {
                let out = if self.both_mode && self.left_held {
                    Some(Event::Button(ButtonEvent::Released(PhysicalButton::Both)))
                } else {
                    Some(event)
                };
                self.both_mode = self.both_mode && self.left_held;
                self.right_held = false;
                out
            },
            _ => Some(event),
        }
    }

    /// Whether the event, after aggregation, is the synthesized press of
    /// both keys: the moment the owning page forces its single-key buttons
    /// into their released look.
    pub fn are_both_buttons_pressed(&self, event: Event) -> (r: bool)
        ensures
            r == (event == Event::Button(ButtonEvent::Pressed(PhysicalButton::Both))),
    {
        matches!(event, Event::Button(ButtonEvent::Pressed(PhysicalButton::Both)))
    }
}

/// What `spec_set_released` keeps and changes, stated over the accessors,
/// for reasoning outside this module.
pub broadcast proof fn lemma_key_set_released(b: KeyButton)
    ensures
        (#[trigger] b.spec_set_released()).spec_state() == State::Released,
        b.spec_set_released().spec_pos() == b.spec_pos(),
        b.spec_set_released().spec_area() == b.spec_area(),
        b.spec_set_released().spec_text() == b.spec_text(),
        b.spec_set_released().spec_styles() == b.spec_styles(),
        b.inv() ==> b.spec_set_released().inv(),
{
}

/// A key button's event model, stated over the accessors and the two
/// machine functions, for reasoning outside this module.
pub broadcast proof fn lemma_key_event_spec(b: KeyButton, e: Event)
    ensures
        (#[trigger] b.event_spec(e)).0.spec_pos() == b.spec_pos(),
        b.event_spec(e).0.spec_area() == b.spec_area(),
        b.event_spec(e).0.spec_text() == b.spec_text(),
        b.event_spec(e).0.spec_styles() == b.spec_styles(),
        b.event_spec(e).0.spec_state() == key_next(b.spec_state(), b.spec_pos(), e),
        b.event_spec(e).1 == key_msg(b.spec_state(), b.spec_pos(), e),
        b.event_spec(e).2 == (key_next(b.spec_state(), b.spec_pos(), e) != b.spec_state()),
        b.inv() ==> b.event_spec(e).0.inv(),
{
}

/// A key button's placement model: its slot's third of the bounds, with
/// everything else kept, for reasoning outside this module.
pub broadcast proof fn lemma_key_place_spec(b: KeyButton, bounds: Rect)
    ensures
        (#[trigger] b.place_spec(bounds)).0.spec_pos() == b.spec_pos(),
        b.place_spec(bounds).0.spec_text() == b.spec_text(),
        b.place_spec(bounds).0.spec_styles() == b.spec_styles(),
        b.place_spec(bounds).0.spec_state() == b.spec_state(),
        b.place_spec(bounds).0.spec_area() == (match b.spec_pos() {
            ButtonPos::Left => bounds.spec_column(0, 3),
            ButtonPos::Middle => bounds.spec_column(1, 3),
            ButtonPos::Right => bounds.spec_column(2, 3),
        }),
        b.place_spec(bounds).1 == b.place_spec(bounds).0.spec_area(),
        bounds.wf() && b.inv() ==> b.place_spec(bounds).0.inv(),
{
    if bounds.wf() {
        crate::geometry::lemma_spec_column_wf(bounds, 0, 3);
        crate::geometry::lemma_spec_column_wf(bounds, 1, 3);
        crate::geometry::lemma_spec_column_wf(bounds, 2, 3);
    }
}


/// What `spec_step` does to the handler's tracked state, for reasoning
/// outside this module.
pub broadcast proof fn lemma_bbp_spec_step(h: BothButtonPressHandler, e: Event)
    ensures
        (#[trigger] h.spec_step(e)).view_state() == bbp_next(h.view_state(), e),
{
}

/// The handler's state after a sequence of raw events.
pub open spec fn bbp_run(h0: BbpState, es: Seq<Event>) -> BbpState
    decreases es.len(),
{
    if es.len() == 0 {
        h0
    } else {
        bbp_next(bbp_run(h0, es.drop_last()), es.last())
    }
}

/// What the handler forwards for the i-th event of a sequence, run from the
/// all-up initial state.
pub open spec fn bbp_out_at(es: Seq<Event>, i: int) -> Option<Event> {
    bbp_out(bbp_run(bbp_initial(), es.take(i)), es[i])
}

/// A raw event of the hardware: a press or release of one of the two
/// physical keys; the synthesized both-keys input never arrives raw.
pub open spec fn raw_key_event(e: Event) -> bool {
    match e {
        Event::Button(ButtonEvent::Pressed(b)) => b != PhysicalButton::Both,
        Event::Button(ButtonEvent::Released(b)) => b != PhysicalButton::Both,
        Event::Touch(_) => false,
    }
}

pub open spec fn all_keys_up(h: BbpState) -> bool {
    !h.left_held && !h.right_held
}

/// Once a both-keys overlap is in progress, it ends only by reaching the
/// all-up state: between a step where the overlap holds and a later step
/// where it no longer does there is a moment with both keys up.
proof fn lemma_overlap_ends_all_up(es: Seq<Event>, a: int, b: int)
    requires
        forall|k: int| 0 <= k < es.len() ==> raw_key_event(#[trigger] es[k]),
        0 <= a <= b <= es.len(),
        bbp_run(bbp_initial(), es.take(a)).both_mode,
        !bbp_run(bbp_initial(), es.take(b)).both_mode,
    ensures
        exists|k: int|
            a < k <= b && all_keys_up(#[trigger] bbp_run(bbp_initial(), es.take(k))),
    decreases b - a,
{
    let hb1 = bbp_run(bbp_initial(), es.take(b - 1));
    assert(es.take(b).drop_last() =~= es.take(b - 1));
    assert(es.take(b).len() == b && es.take(b)[b - 1] == es[b - 1]);
    if hb1.both_mode {
        assert(bbp_run(bbp_initial(), es.take(b)) == bbp_next(hb1, es[b - 1]));
        assert(all_keys_up(bbp_run(bbp_initial(), es.take(b))));
    } else {
        lemma_overlap_ends_all_up(es, a, b - 1);
        let k = choose|k: int|
            a < k <= b - 1 && all_keys_up(#[trigger] bbp_run(bbp_initial(), es.take(k)));
        assert(a < k <= b && all_keys_up(bbp_run(bbp_initial(), es.take(k))));
    }
}

/// At most one synthesized both-keys press per overlap interval: between any
/// two raw events that the handler turns into the aggregate press there is a
/// moment with both keys up, so one overlap of the two keys can never yield
/// the aggregate twice.
pub proof fn lemma_one_aggregate_per_overlap(es: Seq<Event>, i: int, j: int)
    requires
        forall|k: int| 0 <= k < es.len() ==> raw_key_event(#[trigger] es[k]),
        0 <= i < j < es.len(),
        bbp_out_at(es, i) == Some(Event::Button(ButtonEvent::Pressed(PhysicalButton::Both))),
        bbp_out_at(es, j) == Some(Event::Button(ButtonEvent::Pressed(PhysicalButton::Both))),
    ensures
        exists|k: int|
            i < k <= j && all_keys_up(#[trigger] bbp_run(bbp_initial(), es.take(k))),
{
    let hi = bbp_run(bbp_initial(), es.take(i));
    let hj = bbp_run(bbp_initial(), es.take(j));
    assert(es.take(i + 1).drop_last() =~= es.take(i));
    assert(es.take(i + 1).len() == i + 1 && es.take(i + 1)[i] == es[i]);
    assert(bbp_run(bbp_initial(), es.take(i + 1)) == bbp_next(hi, es[i]));
    assert(bbp_run(bbp_initial(), es.take(i + 1)).both_mode);
    assert(!hj.both_mode);
    lemma_overlap_ends_all_up(es, i + 1, j);
    let k = choose|k: int|
        i + 1 < k <= j && all_keys_up(#[trigger] bbp_run(bbp_initial(), es.take(k)));
    assert(i < k <= j && all_keys_up(bbp_run(bbp_initial(), es.take(k))));
}

/// An event that presses or releases only the one given key.
pub open spec fn single_key_event(e: Event, b: PhysicalButton) -> bool {
    e == Event::Button(ButtonEvent::Pressed(b)) || e == Event::Button(ButtonEvent::Released(b))
}

/// While only one key is ever touched, the handler tracks no overlap and
/// the other key stays up.
proof fn lemma_single_key_run(es: Seq<Event>, b: PhysicalButton)
    requires
        b == PhysicalButton::Left || b == PhysicalButton::Right,
        forall|k: int| 0 <= k < es.len() ==> single_key_event(#[trigger] es[k], b),
    ensures
        !bbp_run(bbp_initial(), es).both_mode,
        b == PhysicalButton::Left ==> !bbp_run(bbp_initial(), es).right_held,
        b == PhysicalButton::Right ==> !bbp_run(bbp_initial(), es).left_held,
    decreases es.len(),
{
    if es.len() > 0 {
        assert(single_key_event(es.last(), b));
        lemma_single_key_run(es.drop_last(), b);
    }
}

/// The pass-through law: when only one of the two keys is ever pressed, the
/// handler forwards every raw event unchanged, exactly as if it were not
/// installed.
pub proof fn lemma_single_key_pass_through(es: Seq<Event>, b: PhysicalButton, i: int)
    requires
        b == PhysicalButton::Left || b == PhysicalButton::Right,
        forall|k: int| 0 <= k < es.len() ==> single_key_event(#[trigger] es[k], b),
        0 <= i < es.len(),
    ensures
        bbp_out_at(es, i) == Some(es[i]),
{
    assert(forall|k: int| 0 <= k < es.take(i).len() ==> single_key_event(#[trigger] es.take(i)[k], b));
    lemma_single_key_run(es.take(i), b);
    assert(single_key_event(es[i], b));
}

} // verus!
