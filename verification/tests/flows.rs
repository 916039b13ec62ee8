use ui_core::component::Component;
use ui_core::display::{DisplayList, DrawOp};
use ui_core::event::{ButtonEvent, Event, EventCtx, PhysicalButton};
use ui_core::geometry::{Point, Rect};
use ui_core::layout::{
    confirm_word, new_confirm_action, new_confirm_text, request_pin, show_share_words,
    ComponentMsgObj, UiError, UiResult,
};
use ui_core::pin::PinPageMsg;
use ui_core::seed_backup::{ConfirmWordPage, ConfirmWordPageMsg};

fn press(b: PhysicalButton) -> Event {
    Event::Button(ButtonEvent::Pressed(b))
}

fn release(b: PhysicalButton) -> Event {
    Event::Button(ButtonEvent::Released(b))
}

fn screen() -> Rect {
    Rect { x0: 0, y0: 0, x1: 128, y1: 128 }
}

/// Drive a full click of the given key into the page.
fn click(page: &mut ConfirmWordPage, key: PhysicalButton) -> Option<ConfirmWordPageMsg> {
    let mut ctx = EventCtx::new();
    let mut msg = page.event(&mut ctx, press(key));
    if msg.is_none() {
        msg = page.event(&mut ctx, release(key));
    }
    msg
}

/// Drive the aggregate both-keys click (the OK gesture) into the page.
fn click_ok(page: &mut ConfirmWordPage) -> Option<ConfirmWordPageMsg> {
    let mut ctx = EventCtx::new();
    let mut msg = page.event(&mut ctx, press(PhysicalButton::Left));
    if msg.is_none() {
        msg = page.event(&mut ctx, press(PhysicalButton::Right));
    }
    if msg.is_none() {
        msg = page.event(&mut ctx, release(PhysicalButton::Left));
    }
    if msg.is_none() {
        return msg;
    }
    // Finish the gesture so the page is idle again.
    let _ = page.event(&mut ctx, release(PhysicalButton::Right));
    msg
}

/// The texts painted at the given baseline.
fn texts_at(d: &DisplayList, x: i32, y: i32) -> Vec<String> {
    let mut found = Vec::new();
    let mut i = 0;
    while i < d.len() {
        if let DrawOp::Text { baseline, text, .. } = d.op_at(i) {
            if *baseline == (Point { x, y }) {
                found.push(text.clone());
            }
        }
        i += 1;
    }
    found
}

#[test]
fn confirm_word_ok_returns_word_at_counter() {
    // Three words, the checked one in the middle: OK confirms exactly it.
    let mut page = confirm_word("alpha,bravo,charlie", 1, 3).unwrap();
    assert_eq!(page.get_current_word(), "bravo");
    assert_eq!(click_ok(&mut page), Some(ConfirmWordPageMsg::Confirmed));
    assert_eq!(page.get_current_word(), "bravo");
    match page.msg_try_into_obj(ConfirmWordPageMsg::Confirmed) {
        Ok(UiResult::Value(w)) => assert_eq!(w, "bravo"),
        _ => panic!("expected the confirmed word"),
    }
}

#[test]
fn confirm_word_navigation_saturates() {
    let mut page = confirm_word("alpha,bravo,charlie", 0, 3).unwrap();
    // BACK on the first page does nothing.
    assert_eq!(click(&mut page, PhysicalButton::Left), None);
    assert_eq!(page.get_current_word(), "alpha");
    // NEXT steps forward.
    assert_eq!(click(&mut page, PhysicalButton::Right), None);
    assert_eq!(page.get_current_word(), "bravo");
    assert_eq!(click(&mut page, PhysicalButton::Right), None);
    assert_eq!(page.get_current_word(), "charlie");
    // NEXT on the last page does nothing.
    assert_eq!(click(&mut page, PhysicalButton::Right), None);
    assert_eq!(page.get_current_word(), "charlie");
    // BACK steps backward.
    assert_eq!(click(&mut page, PhysicalButton::Left), None);
    assert_eq!(page.get_current_word(), "bravo");
}

#[test]
fn confirm_word_window_slots_follow_counter() {
    let mut page = confirm_word("alpha,bravo,charlie", 0, 3).unwrap();
    page.place(screen());
    let mut d = DisplayList::new();
    page.paint(&mut d);
    // On the first page: no previous slot, current and next shown.
    assert_eq!(texts_at(&d, 5, 72), Vec::<String>::new());
    assert_eq!(texts_at(&d, 62, 72), vec!["alpha".to_string()]);
    assert_eq!(texts_at(&d, 115, 72), vec!["bravo".to_string()]);
    // In the middle: all three slots.
    assert_eq!(click(&mut page, PhysicalButton::Right), None);
    let mut d1 = DisplayList::new();
    page.paint(&mut d1);
    assert_eq!(texts_at(&d1, 5, 72), vec!["alpha".to_string()]);
    assert_eq!(texts_at(&d1, 62, 72), vec!["bravo".to_string()]);
    assert_eq!(texts_at(&d1, 115, 72), vec!["charlie".to_string()]);
    // On the last page: no next slot.
    assert_eq!(click(&mut page, PhysicalButton::Right), None);
    let mut d2 = DisplayList::new();
    page.paint(&mut d2);
    assert_eq!(texts_at(&d2, 5, 72), vec!["bravo".to_string()]);
    assert_eq!(texts_at(&d2, 62, 72), vec!["charlie".to_string()]);
    assert_eq!(texts_at(&d2, 115, 72), Vec::<String>::new());
}

#[test]
fn confirm_word_single_word_shows_only_ok() {
    // One word: no previous, no next, OK confirms that word.
    let mut page = confirm_word("solo", 0, 1).unwrap();
    page.place(screen());
    let mut d = DisplayList::new();
    page.paint(&mut d);
    assert_eq!(texts_at(&d, 5, 72), Vec::<String>::new());
    assert_eq!(texts_at(&d, 62, 72), vec!["solo".to_string()]);
    assert_eq!(texts_at(&d, 115, 72), Vec::<String>::new());
    let ok_texts: Vec<String> = all_texts(&d);
    assert!(ok_texts.contains(&"OK".to_string()));
    assert!(!ok_texts.contains(&"BACK".to_string()));
    assert!(!ok_texts.contains(&"NEXT".to_string()));
    assert_eq!(click_ok(&mut page), Some(ConfirmWordPageMsg::Confirmed));
    assert_eq!(page.get_current_word(), "solo");
}

fn all_texts(d: &DisplayList) -> Vec<String> {
    let mut found = Vec::new();
    let mut i = 0;
    while i < d.len() {
        if let DrawOp::Text { text, .. } = d.op_at(i) {
            found.push(text.clone());
        }
        i += 1;
    }
    found
}

#[test]
fn confirm_word_end_to_end() {
    let mut page = confirm_word("dog,cat,fox", 1, 3).unwrap();
    page.place(screen());
    let mut d = DisplayList::new();
    page.paint(&mut d);
    // The header names the 1-based position under confirmation.
    assert_eq!(texts_at(&d, 0, 10), vec!["Select word 2 of 3:".to_string()]);
    // Exactly three words back the page.
    assert_eq!(page.get_current_word(), "cat");
    assert_eq!(click(&mut page, PhysicalButton::Right), None);
    assert_eq!(click_ok(&mut page), Some(ConfirmWordPageMsg::Confirmed));
    assert_eq!(page.get_current_word(), "fox");
    match page.msg_try_into_obj(ConfirmWordPageMsg::Confirmed) {
        Ok(UiResult::Value(w)) => assert_eq!(w, "fox"),
        _ => panic!("expected the confirmed word"),
    }
}

#[test]
fn confirm_word_rejects_overflow_and_bad_index() {
    // A 25th word overflows the 24-word buffer.
    let many = vec!["w"; 25].join(",");
    match confirm_word(&many, 0, 25) {
        Err(UiError::Capacity) => {},
        _ => panic!("expected a capacity error"),
    }
    // A word over 50 bytes overflows its buffer.
    let long = "x".repeat(51);
    match confirm_word(&long, 0, 1) {
        Err(UiError::Capacity) => {},
        _ => panic!("expected a capacity error"),
    }
    // Exactly 50 bytes still fits.
    let fit = "x".repeat(50);
    assert!(confirm_word(&fit, 0, 1).is_ok());
    // A checked position outside the list is a configuration error.
    match confirm_word("a,b", 2, 2) {
        Err(UiError::TypeError) => {},
        _ => panic!("expected a configuration error"),
    }
}

#[test]
fn place_twice_with_same_bounds_paints_identically() {
    let mut once = confirm_word("dog,cat,fox", 1, 3).unwrap();
    let mut twice = confirm_word("dog,cat,fox", 1, 3).unwrap();
    once.place(screen());
    twice.place(screen());
    twice.place(screen());
    let mut d1 = DisplayList::new();
    once.paint(&mut d1);
    let mut d2 = DisplayList::new();
    twice.paint(&mut d2);
    assert_eq!(d1, d2);
}

#[test]
fn request_pin_defaults_and_entry() {
    let mut page = request_pin("Enter PIN".to_string(), "".to_string(), None, None);
    assert!(page.push_digit(1));
    assert!(page.push_digit(2));
    assert!(page.push_digit(3));
    assert_eq!(page.pin(), "123");
    page.pop_digit();
    assert_eq!(page.pin(), "12");
    assert!(page.push_digit(3));
    let mut ctx = EventCtx::new();
    // The right key confirms; translation carries the PIN out.
    assert_eq!(page.event(&mut ctx, press(PhysicalButton::Right)), None);
    assert_eq!(
        page.event(&mut ctx, release(PhysicalButton::Right)),
        Some(PinPageMsg::Confirmed)
    );
    match page.msg_try_into_obj(PinPageMsg::Confirmed) {
        Ok(UiResult::Value(pin)) => assert_eq!(pin, "123"),
        _ => panic!("expected the entered PIN"),
    }
    // Cancel is allowed by default; the left key cancels.
    assert_eq!(page.event(&mut ctx, press(PhysicalButton::Left)), None);
    assert_eq!(
        page.event(&mut ctx, release(PhysicalButton::Left)),
        Some(PinPageMsg::Cancelled)
    );
    match page.msg_try_into_obj(PinPageMsg::Cancelled) {
        Ok(UiResult::Cancelled) => {},
        _ => panic!("expected a cancelled outcome"),
    }
}

#[test]
fn request_pin_without_cancel_ignores_left_key() {
    let mut page = request_pin("Enter PIN".to_string(), "".to_string(), Some(false), Some(true));
    let mut ctx = EventCtx::new();
    assert_eq!(page.event(&mut ctx, press(PhysicalButton::Left)), None);
    assert_eq!(page.event(&mut ctx, release(PhysicalButton::Left)), None);
}

#[test]
fn pin_buffer_is_bounded() {
    let mut page = request_pin("Enter PIN".to_string(), "".to_string(), None, None);
    for _ in 0..50 {
        assert!(page.push_digit(9));
    }
    assert!(!page.push_digit(9));
    assert_eq!(page.pin().len(), 50);
}

#[test]
fn confirm_action_chooses_the_format() {
    let mut frame = new_confirm_action(
        "Send".to_string(),
        Some("send 1 coin".to_string()),
        Some("to address".to_string()),
        None,
        None,
        false,
    );
    frame.place(screen());
    let mut d = DisplayList::new();
    frame.paint(&mut d);
    let texts = all_texts(&d);
    assert!(texts.contains(&"Send".to_string()));
    assert!(texts.contains(&"{bold}{action}\n\r{normal}{description}".to_string()));

    let mut reversed = new_confirm_action(
        "Send".to_string(),
        Some("send 1 coin".to_string()),
        Some("to address".to_string()),
        None,
        None,
        true,
    );
    reversed.place(screen());
    let mut d2 = DisplayList::new();
    reversed.paint(&mut d2);
    assert!(all_texts(&d2).contains(&"{normal}{description}\n\r{bold}{action}".to_string()));

    let mut action_only = new_confirm_action(
        "Send".to_string(),
        Some("send 1 coin".to_string()),
        None,
        None,
        None,
        false,
    );
    action_only.place(screen());
    let mut d3 = DisplayList::new();
    action_only.paint(&mut d3);
    assert!(all_texts(&d3).contains(&"{bold}{action}".to_string()));
}

#[test]
fn confirm_text_stacks_description_over_data() {
    let mut frame = new_confirm_text(
        "Message".to_string(),
        "hello".to_string(),
        Some("you received".to_string()),
    );
    frame.place(screen());
    let mut d = DisplayList::new();
    frame.paint(&mut d);
    let texts = all_texts(&d);
    assert!(texts.contains(&"Message".to_string()));
    assert!(texts.contains(&"you received".to_string()));
    assert!(texts.contains(&"hello".to_string()));
}

#[test]
fn show_share_words_builds_the_numbered_text() {
    let mut frame = show_share_words("uno,dos").unwrap();
    frame.place(screen());
    let mut d = DisplayList::new();
    frame.paint(&mut d);
    let texts = all_texts(&d);
    assert!(texts.contains(&"Recovery seed".to_string()));
    let expected = "Write down these 2 words:\n\n1. uno\n\n\n2. dos\n\n\nI wrote down all 2 words in order.";
    assert!(texts.contains(&expected.to_string()));
}

#[test]
fn show_share_words_rejects_an_overflowing_text() {
    let many = vec!["word"; 100].join(",");
    match show_share_words(&many) {
        Err(UiError::Capacity) => {},
        _ => panic!("expected a capacity error"),
    }
}
