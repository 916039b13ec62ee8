use ui_core::button::{Button, ButtonArray, ButtonMsg};
use ui_core::component::Component;
use ui_core::event::{ButtonEvent, Event, EventCtx, PhysicalButton, TouchEvent};
use ui_core::geometry::{Point, Rect};
use ui_core::keypad::{BothButtonPressHandler, ButtonPos, KeyButton};

fn area() -> Rect {
    Rect { x0: 0, y0: 0, x1: 100, y1: 40 }
}

fn start(x: i32, y: i32) -> Event {
    Event::Touch(TouchEvent::TouchStart(Point { x, y }))
}

fn mv(x: i32, y: i32) -> Event {
    Event::Touch(TouchEvent::TouchMove(Point { x, y }))
}

fn end(x: i32, y: i32) -> Event {
    Event::Touch(TouchEvent::TouchEnd(Point { x, y }))
}

#[test]
fn button_click_press_release_inside() {
    let mut b = Button::with_text(area(), "OK".to_string());
    let mut ctx = EventCtx::new();
    assert_eq!(b.event(&mut ctx, start(10, 10)), Some(ButtonMsg::Pressed));
    assert!(ctx.paint_requested());
    let mut ctx2 = EventCtx::new();
    assert_eq!(b.event(&mut ctx2, end(12, 12)), Some(ButtonMsg::Clicked));
    assert!(ctx2.paint_requested());
}

#[test]
fn button_drag_out_then_end_outside_no_click() {
    let mut b = Button::with_text(area(), "OK".to_string());
    let mut ctx = EventCtx::new();
    assert_eq!(b.event(&mut ctx, start(10, 10)), Some(ButtonMsg::Pressed));
    assert_eq!(b.event(&mut ctx, mv(200, 10)), Some(ButtonMsg::Released));
    assert_eq!(b.event(&mut ctx, end(200, 10)), None);
}

#[test]
fn button_drag_out_and_back_in_clicks() {
    let mut b = Button::with_text(area(), "OK".to_string());
    let mut ctx = EventCtx::new();
    assert_eq!(b.event(&mut ctx, start(10, 10)), Some(ButtonMsg::Pressed));
    assert_eq!(b.event(&mut ctx, mv(200, 10)), Some(ButtonMsg::Released));
    assert_eq!(b.event(&mut ctx, mv(50, 10)), Some(ButtonMsg::Pressed));
    assert_eq!(b.event(&mut ctx, end(50, 10)), Some(ButtonMsg::Clicked));
}

#[test]
fn button_start_outside_is_ignored() {
    let mut b = Button::with_text(area(), "OK".to_string());
    let mut ctx = EventCtx::new();
    assert_eq!(b.event(&mut ctx, start(200, 10)), None);
    assert!(!ctx.paint_requested());
    assert_eq!(b.event(&mut ctx, end(10, 10)), None);
}

#[test]
fn button_disabled_absorbs_touches() {
    let mut b = Button::with_text(area(), "OK".to_string());
    let mut ctx = EventCtx::new();
    b.disable(&mut ctx);
    assert!(b.is_disabled());
    assert!(!b.is_enabled());
    let mut ctx2 = EventCtx::new();
    assert_eq!(b.event(&mut ctx2, start(10, 10)), None);
    assert_eq!(b.event(&mut ctx2, end(10, 10)), None);
    assert!(!ctx2.paint_requested());
    b.enable(&mut ctx);
    assert!(b.is_enabled());
    let mut ctx3 = EventCtx::new();
    assert_eq!(b.event(&mut ctx3, start(10, 10)), Some(ButtonMsg::Pressed));
}

#[test]
fn button_no_repaint_without_state_change() {
    let mut b = Button::with_text(area(), "OK".to_string());
    let mut ctx = EventCtx::new();
    assert_eq!(b.event(&mut ctx, mv(10, 10)), None);
    assert!(!ctx.paint_requested());
}

#[test]
fn button_array_left_cancels_right_confirms() {
    let left = Button::with_text(area(), "NO".to_string());
    let right = Button::with_text(area(), "YES".to_string());
    let mut arr = ButtonArray::new(area(), left, right);
    let mut ctx = EventCtx::new();
    // The left button takes the first of four columns.
    assert_eq!(arr.event(&mut ctx, start(10, 10)), None);
    assert_eq!(arr.event(&mut ctx, end(10, 10)), Some(false));
    // The right button spans the remaining three columns.
    assert_eq!(arr.event(&mut ctx, start(60, 10)), None);
    assert_eq!(arr.event(&mut ctx, end(60, 10)), Some(true));
}

fn press(b: PhysicalButton) -> Event {
    Event::Button(ButtonEvent::Pressed(b))
}

fn release(b: PhysicalButton) -> Event {
    Event::Button(ButtonEvent::Released(b))
}

#[test]
fn key_button_click_on_its_own_key() {
    let mut b = KeyButton::with_text(
        ButtonPos::Left,
        "BACK".to_string(),
        ui_core::theme::button_default(),
    );
    let mut ctx = EventCtx::new();
    assert_eq!(b.event(&mut ctx, press(PhysicalButton::Left)), Some(ButtonMsg::Pressed));
    assert_eq!(b.event(&mut ctx, release(PhysicalButton::Left)), Some(ButtonMsg::Clicked));
    // Another slot's key does nothing.
    assert_eq!(b.event(&mut ctx, press(PhysicalButton::Right)), None);
}

#[test]
fn handler_passes_single_key_through() {
    let mut h = BothButtonPressHandler::new();
    let evs = [
        press(PhysicalButton::Left),
        release(PhysicalButton::Left),
        press(PhysicalButton::Left),
        release(PhysicalButton::Left),
    ];
    for e in evs {
        assert_eq!(h.possibly_replace_event(e), Some(e));
    }
}

#[test]
fn handler_synthesizes_one_aggregate_per_overlap() {
    let mut h = BothButtonPressHandler::new();
    assert_eq!(
        h.possibly_replace_event(press(PhysicalButton::Left)),
        Some(press(PhysicalButton::Left))
    );
    // The second key down makes the overlap: the aggregate press comes out.
    assert_eq!(
        h.possibly_replace_event(press(PhysicalButton::Right)),
        Some(press(PhysicalButton::Both))
    );
    // The first key up while both were held: the aggregate release.
    assert_eq!(
        h.possibly_replace_event(release(PhysicalButton::Left)),
        Some(release(PhysicalButton::Both))
    );
    // Pressing again inside the same overlap is swallowed: no second aggregate.
    assert_eq!(h.possibly_replace_event(press(PhysicalButton::Left)), None);
    assert_eq!(
        h.possibly_replace_event(release(PhysicalButton::Left)),
        Some(release(PhysicalButton::Both))
    );
    // The last key up ends the overlap with a plain release.
    assert_eq!(
        h.possibly_replace_event(release(PhysicalButton::Right)),
        Some(release(PhysicalButton::Right))
    );
    // After that, single-key flow is plain pass-through again.
    assert_eq!(
        h.possibly_replace_event(press(PhysicalButton::Right)),
        Some(press(PhysicalButton::Right))
    );
}
