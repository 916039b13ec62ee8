use ui_core::component::Component;
use ui_core::dialog::{Dialog, DialogMsg};
use ui_core::event::{ButtonEvent, Event, EventCtx, PhysicalButton};
use ui_core::geometry::{Grid, Insets, Point, Rect};
use ui_core::keypad::{ButtonPos, KeyButton};
use ui_core::layout::{confirm_word, new_confirm_text, ComponentMsgObj, UiResult};
use ui_core::numfmt::dec_u16;
use ui_core::page::PageMsg;
use ui_core::seed_backup::ConfirmWordPageMsg;

fn press(b: PhysicalButton) -> Event {
    Event::Button(ButtonEvent::Pressed(b))
}

fn release(b: PhysicalButton) -> Event {
    Event::Button(ButtonEvent::Released(b))
}

#[test]
fn dialog_button_click_wins_over_content() {
    let page = confirm_word("alpha,bravo,charlie", 1, 3).unwrap();
    let left = KeyButton::with_text(
        ButtonPos::Left,
        "NO".to_string(),
        ui_core::theme::button_cancel(),
    );
    let right = KeyButton::with_text(
        ButtonPos::Right,
        "YES".to_string(),
        ui_core::theme::button_default(),
    );
    let mut dialog = Dialog::new(page, Some(left), Some(right));
    let mut ctx = EventCtx::new();
    // Both the dialog's left button and the page's BACK control own the
    // left key; the dialog's button wins and the page is not consulted:
    // its counter has not moved.
    assert_eq!(dialog.event(&mut ctx, press(PhysicalButton::Left)), None);
    match dialog.event(&mut ctx, release(PhysicalButton::Left)) {
        Some(DialogMsg::LeftClicked) => {},
        _ => panic!("expected the left button's click"),
    }
    assert_eq!(dialog.inner().get_current_word(), "bravo");
    // Same for the right key.
    assert_eq!(dialog.event(&mut ctx, press(PhysicalButton::Right)), None);
    match dialog.event(&mut ctx, release(PhysicalButton::Right)) {
        Some(DialogMsg::RightClicked) => {},
        _ => panic!("expected the right button's click"),
    }
    assert_eq!(dialog.inner().get_current_word(), "bravo");
}

#[test]
fn dialog_without_buttons_forwards_content_message() {
    let page = confirm_word("alpha,bravo", 0, 2).unwrap();
    let mut dialog = Dialog::new(page, None, None);
    let mut ctx = EventCtx::new();
    assert_eq!(dialog.event(&mut ctx, press(PhysicalButton::Left)), None);
    assert_eq!(dialog.event(&mut ctx, press(PhysicalButton::Right)), None);
    match dialog.event(&mut ctx, release(PhysicalButton::Left)) {
        Some(DialogMsg::Content(ConfirmWordPageMsg::Confirmed)) => {},
        _ => panic!("expected the page's confirmation, forwarded"),
    }
    match dialog.msg_try_into_obj(DialogMsg::Content(ConfirmWordPageMsg::Confirmed)) {
        Ok(UiResult::Value(w)) => assert_eq!(w, "alpha"),
        _ => panic!("expected the confirmed word"),
    }
    match dialog.msg_try_into_obj(DialogMsg::LeftClicked) {
        Ok(UiResult::Cancelled) => {},
        _ => panic!("expected a cancelled outcome"),
    }
    match dialog.msg_try_into_obj(DialogMsg::RightClicked) {
        Ok(UiResult::Confirmed) => {},
        _ => panic!("expected a confirmed outcome"),
    }
}

#[test]
fn button_page_left_cancels_right_confirms_single_page() {
    let mut frame = new_confirm_text("Title".to_string(), "data".to_string(), None);
    let mut ctx = EventCtx::new();
    // On the first (and only) page, the left control cancels.
    assert_eq!(frame.event(&mut ctx, press(PhysicalButton::Left)), None);
    let cancelled = frame.event(&mut ctx, release(PhysicalButton::Left));
    match cancelled {
        Some(PageMsg::Controls(false)) => {},
        _ => panic!("expected the cancel outcome"),
    }
    match frame.msg_try_into_obj(cancelled.unwrap()) {
        Ok(UiResult::Cancelled) => {},
        _ => panic!("expected a cancelled outcome"),
    }
    // On the last (and only) page, the right control confirms.
    assert_eq!(frame.event(&mut ctx, press(PhysicalButton::Right)), None);
    let confirmed = frame.event(&mut ctx, release(PhysicalButton::Right));
    match confirmed {
        Some(PageMsg::Controls(true)) => {},
        _ => panic!("expected the confirm outcome"),
    }
    match frame.msg_try_into_obj(confirmed.unwrap()) {
        Ok(UiResult::Confirmed) => {},
        _ => panic!("expected a confirmed outcome"),
    }
}

#[test]
fn content_message_of_a_page_carries_no_outcome() {
    let frame = new_confirm_text("Title".to_string(), "data".to_string(), None);
    match frame.msg_try_into_obj(PageMsg::Content(())) {
        Err(ui_core::layout::UiError::TypeError) => {},
        _ => panic!("expected a type error"),
    }
}

#[test]
fn decimal_rendering() {
    assert_eq!(dec_u16(0), "0");
    assert_eq!(dec_u16(7), "7");
    assert_eq!(dec_u16(10), "10");
    assert_eq!(dec_u16(24), "24");
    assert_eq!(dec_u16(255), "255");
    assert_eq!(dec_u16(65535), "65535");
}

#[test]
fn rectangle_arithmetic() {
    let r = Rect { x0: 0, y0: 0, x1: 128, y1: 64 };
    assert!(r.contains(Point { x: 0, y: 0 }));
    assert!(r.contains(Point { x: 127, y: 63 }));
    assert!(!r.contains(Point { x: 128, y: 0 }));
    assert_eq!(r.center(), Point { x: 64, y: 32 });
    let (rest, strip) = r.split_bottom(18);
    assert_eq!(rest, Rect { x0: 0, y0: 0, x1: 128, y1: 46 });
    assert_eq!(strip, Rect { x0: 0, y0: 46, x1: 128, y1: 64 });
    let inset = r.inset(Insets::uniform(4));
    assert_eq!(inset, Rect { x0: 4, y0: 4, x1: 124, y1: 60 });
    let grid = Grid::new(r, 1, 4).with_spacing(6);
    let cell = grid.row_col(0, 0);
    assert_eq!(cell, Rect { x0: 3, y0: 3, x1: 29, y1: 61 });
}
