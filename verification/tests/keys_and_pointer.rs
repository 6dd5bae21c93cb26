use lockbook::cursor::{to_x11_cursor, CursorIcon};
use lockbook::keyboard::{Key, NSKeys};
use lockbook::pointer::{handle, Modifiers, PointerButton, PointerEvent};

fn no_modifiers() -> Modifiers {
    Modifiers { alt: false, ctrl: false, shift: false, mac_cmd: false, command: false }
}

fn shift() -> Modifiers {
    Modifiers { shift: true, ..no_modifiers() }
}

#[test]
fn key_codes_map_to_keys() {
    assert_eq!(NSKeys::from(0), Some(NSKeys::A));
    assert_eq!(NSKeys::from(1), Some(NSKeys::S));
    assert_eq!(NSKeys::from(36), Some(NSKeys::Return));
    assert_eq!(NSKeys::from(49), Some(NSKeys::Space));
    assert_eq!(NSKeys::from(126), Some(NSKeys::Up));
    assert_eq!(NSKeys::from(122), Some(NSKeys::F1));
}

#[test]
fn right_hand_modifiers_and_keypad_map_like_the_main_keys() {
    assert_eq!(NSKeys::from(60), NSKeys::from(56));
    assert_eq!(NSKeys::from(61), NSKeys::from(58));
    assert_eq!(NSKeys::from(62), NSKeys::from(59));
    assert_eq!(NSKeys::from(82), Some(NSKeys::Num0));
    assert_eq!(NSKeys::from(65), Some(NSKeys::Period));
}

#[test]
fn unmapped_key_codes_give_no_key() {
    assert_eq!(NSKeys::from(10), None);
    assert_eq!(NSKeys::from(52), None);
    assert_eq!(NSKeys::from(67), None);
    assert_eq!(NSKeys::from(117), None);
    assert_eq!(NSKeys::from(127), None);
    assert_eq!(NSKeys::from(u16::MAX), None);
}

#[test]
fn valid_text_keys() {
    assert!(NSKeys::A.valid_text());
    assert!(NSKeys::Num5.valid_text());
    assert!(NSKeys::Semicolon.valid_text());
    assert!(NSKeys::Space.valid_text());
    assert!(!NSKeys::Return.valid_text());
    assert!(!NSKeys::Shift.valid_text());
    assert!(!NSKeys::F12.valid_text());
    assert!(!NSKeys::Insert.valid_text());
}

#[test]
fn editor_keys() {
    assert_eq!(NSKeys::A.egui_key(), Some(Key::A));
    assert_eq!(NSKeys::Return.egui_key(), Some(Key::Enter));
    assert_eq!(NSKeys::Left.egui_key(), Some(Key::ArrowLeft));
    assert_eq!(NSKeys::F20.egui_key(), Some(Key::F20));
    assert_eq!(NSKeys::Insert.egui_key(), Some(Key::Insert));
    assert_eq!(NSKeys::Comma.egui_key(), None);
    assert_eq!(NSKeys::Option.egui_key(), None);
    assert_eq!(NSKeys::Fn.egui_key(), None);
}

#[test]
fn x11_cursor_names() {
    assert_eq!(to_x11_cursor(CursorIcon::Default), "left_ptr");
    assert_eq!(to_x11_cursor(CursorIcon::Hidden), "none");
    assert_eq!(to_x11_cursor(CursorIcon::PointingHand), "pointer");
    assert_eq!(to_x11_cursor(CursorIcon::ResizeHorizontal), "resize-horiz");
    assert_eq!(to_x11_cursor(CursorIcon::ResizeVertical), "vertical-resize");
    assert_eq!(to_x11_cursor(CursorIcon::ZoomOut), "zoom-out");
}

#[test]
fn wheel_buttons_scroll() {
    assert_eq!(handle(5, 6, 4, no_modifiers(), true), PointerEvent::Scroll { dx: 0, dy: 10 });
    assert_eq!(handle(5, 6, 5, no_modifiers(), true), PointerEvent::Scroll { dx: 0, dy: -10 });
    assert_eq!(handle(5, 6, 6, no_modifiers(), true), PointerEvent::Scroll { dx: 10, dy: 0 });
    assert_eq!(handle(5, 6, 7, no_modifiers(), false), PointerEvent::Scroll { dx: -10, dy: 0 });
}

#[test]
fn shift_turns_the_wheel_horizontal() {
    assert_eq!(handle(0, 0, 4, shift(), true), PointerEvent::Scroll { dx: 10, dy: 0 });
    assert_eq!(handle(0, 0, 5, shift(), true), PointerEvent::Scroll { dx: -10, dy: 0 });
    assert_eq!(handle(0, 0, 6, shift(), true), PointerEvent::Scroll { dx: 10, dy: 0 });
}

#[test]
fn buttons_press_and_release() {
    assert_eq!(
        handle(-3, 40, 1, shift(), true),
        PointerEvent::Button { x: -3, y: 40, button: PointerButton::Primary, pressed: true, modifiers: shift() }
    );
    assert_eq!(
        handle(1, 2, 2, no_modifiers(), false),
        PointerEvent::Button {
            x: 1,
            y: 2,
            button: PointerButton::Middle,
            pressed: false,
            modifiers: no_modifiers()
        }
    );
    assert!(matches!(
        handle(1, 2, 3, no_modifiers(), true),
        PointerEvent::Button { button: PointerButton::Secondary, .. }
    ));
    assert!(matches!(
        handle(1, 2, 8, no_modifiers(), true),
        PointerEvent::Button { button: PointerButton::Extra1, .. }
    ));
    assert!(matches!(
        handle(1, 2, 9, no_modifiers(), true),
        PointerEvent::Button { button: PointerButton::Extra2, .. }
    ));
}

#[test]
fn other_buttons_are_ignored() {
    assert_eq!(handle(1, 2, 0, no_modifiers(), true), PointerEvent::Ignored);
    assert_eq!(handle(1, 2, 10, no_modifiers(), true), PointerEvent::Ignored);
    assert_eq!(handle(1, 2, 255, no_modifiers(), false), PointerEvent::Ignored);
}

#[test]
fn x11_cursor_names_are_distinct() {
    let all = [
        CursorIcon::Default, CursorIcon::Hidden, CursorIcon::ContextMenu, CursorIcon::Help,
        CursorIcon::PointingHand, CursorIcon::Progress, CursorIcon::Wait, CursorIcon::Cell,
        CursorIcon::Crosshair, CursorIcon::Text, CursorIcon::VerticalText, CursorIcon::Alias,
        CursorIcon::Copy, CursorIcon::Move, CursorIcon::NoDrop, CursorIcon::NotAllowed,
        CursorIcon::Grab, CursorIcon::Grabbing, CursorIcon::AllScroll, CursorIcon::ResizeHorizontal,
        CursorIcon::ResizeNeSw, CursorIcon::ResizeNwSe, CursorIcon::ResizeVertical,
        CursorIcon::ResizeEast, CursorIcon::ResizeSouthEast, CursorIcon::ResizeSouth,
        CursorIcon::ResizeSouthWest, CursorIcon::ResizeWest, CursorIcon::ResizeNorthWest,
        CursorIcon::ResizeNorth, CursorIcon::ResizeNorthEast, CursorIcon::ResizeColumn,
        CursorIcon::ResizeRow, CursorIcon::ZoomIn, CursorIcon::ZoomOut,
    ];
    let mut names: Vec<&str> = all.iter().map(|c| to_x11_cursor(*c)).collect();
    assert!(names.iter().all(|n| !n.is_empty() && n.is_ascii() && !n.contains(' ')));
    names.sort();
    names.dedup();
    assert_eq!(names.len(), 35);
}
