use cosg::theme::{ColorRole, FontRole};
use cosg::widget::PointerKind;
use cosg::widgets::button::{Button, ButtonState};
use cosg::widgets::label::Label;

#[test]
fn button_starts_idle_and_unlabelled() {
    let b = Button::new();
    assert_eq!(b.state(), ButtonState::Idle);
    assert_eq!(b.text(), "");
    assert!(!b.shows_label());
    let b = b.label("Click me".to_string());
    assert_eq!(b.text(), "Click me");
    assert!(b.shows_label());
    assert_eq!(b.fill_role(), ColorRole::Primary);
}

#[test]
fn button_click_fires_once() {
    let mut b = Button::new().label("ok".to_string());
    assert!(!b.handle_event(PointerKind::Move, true));
    assert_eq!(b.state(), ButtonState::Hovered);
    assert_eq!(b.fill_role(), ColorRole::PrimaryHover);
    assert!(!b.handle_event(PointerKind::Down, true));
    assert_eq!(b.state(), ButtonState::Pressed);
    assert_eq!(b.fill_role(), ColorRole::PrimaryPress);
    assert!(b.handle_event(PointerKind::Up, true));
    assert_eq!(b.state(), ButtonState::Hovered);
    assert!(!b.handle_event(PointerKind::Up, true));
    assert_eq!(b.state(), ButtonState::Idle);
    assert_eq!(b.text(), "ok");
}

#[test]
fn button_release_outside_cancels() {
    let mut b = Button::new();
    assert!(!b.handle_event(PointerKind::Down, true));
    assert!(!b.handle_event(PointerKind::Up, false));
    assert_eq!(b.state(), ButtonState::Idle);
}

#[test]
fn button_drag_off_and_back_loses_press() {
    let mut b = Button::new();
    b.handle_event(PointerKind::Down, true);
    b.handle_event(PointerKind::Move, true);
    assert_eq!(b.state(), ButtonState::Pressed);
    b.handle_event(PointerKind::Move, false);
    assert_eq!(b.state(), ButtonState::Idle);
    b.handle_event(PointerKind::Move, true);
    assert_eq!(b.state(), ButtonState::Hovered);
    assert!(!b.handle_event(PointerKind::Up, true));
}

#[test]
fn button_down_outside_keeps_state() {
    let mut s = ButtonState::Hovered;
    assert!(!s.handle_event(PointerKind::Down, false));
    assert_eq!(s, ButtonState::Hovered);
    let mut s = ButtonState::Idle;
    assert!(!s.handle_event(PointerKind::Down, false));
    assert_eq!(s, ButtonState::Idle);
}

#[test]
fn button_fires_no_more_than_presses() {
    let events = [
        (PointerKind::Up, true),
        (PointerKind::Move, true),
        (PointerKind::Up, true),
        (PointerKind::Down, true),
        (PointerKind::Up, true),
        (PointerKind::Up, true),
        (PointerKind::Down, false),
        (PointerKind::Up, true),
    ];
    let mut s = ButtonState::Idle;
    let mut fired = 0;
    let mut presses = 0;
    for (k, inside) in events {
        if k == PointerKind::Down && inside {
            presses += 1;
        }
        if s.handle_event(k, inside) {
            fired += 1;
        }
    }
    assert_eq!(fired, 1);
    assert!(fired <= presses);
}

#[test]
fn label_text_and_size() {
    let l = Label::new("CosG UI".to_string());
    assert_eq!(l.text(), "CosG UI");
    assert_eq!(l.font_role(), FontRole::Normal);
    let l = l.small();
    assert_eq!(l.text(), "CosG UI");
    assert_eq!(l.font_role(), FontRole::Small);
}
