use vstd::prelude::*;

verus! {

/// The distance one notch of the mouse wheel scrolls, in points.
pub const SCROLL_UNIT: i32 = 10;

/// The modifier keys held during a pointer event (named as egui names them).
#[derive(Clone, Copy, Debug, PartialEq, Eq, Structural)]
pub struct Modifiers {
    pub alt: bool,
    pub ctrl: bool,
    pub shift: bool,
    pub mac_cmd: bool,
    pub command: bool,
}

/// A mouse button the user interface distinguishes.
#[derive(Clone, Copy, Debug, PartialEq, Eq, Structural)]
pub enum PointerButton {
    Primary,
    Secondary,
    Middle,
    /// The "back" button.
    Extra1,
    /// The "forward" button.
    Extra2,
}

/// What an X11 button press or release becomes for the user interface.
#[derive(Clone, Copy, Debug, PartialEq, Eq, Structural)]
pub enum PointerEvent {
    /// A scroll by `(dx, dy)` points.
    Scroll { dx: i32, dy: i32 },
    /// A press or release of a mouse button at `(x, y)`.
    Button { x: i16, y: i16, button: PointerButton, pressed: bool, modifiers: Modifiers },
    /// The event carries nothing the user interface uses.
    Ignored,
}

/// X11 reports the mouse wheel as buttons 4 to 7.
pub open spec fn is_scroll_button(detail: u8) -> bool {
    4 <= detail <= 7
}

/// The scroll delta of a wheel "button": 4 and 5 scroll up and down (left and
/// right while shift is held), 6 and 7 scroll left and right.
pub open spec fn scroll_delta(detail: u8, shift: bool) -> (int, int) {
    if detail == 4 && shift {
        (SCROLL_UNIT as int, 0)
    } else if detail == 5 && shift {
        (-SCROLL_UNIT, 0)
    } else if detail == 4 {
        (0, SCROLL_UNIT as int)
    } else if detail == 5 {
        (0, -SCROLL_UNIT)
    } else if detail == 6 {
        (SCROLL_UNIT as int, 0)
    } else {
        (-SCROLL_UNIT, 0)
    }
}

/// The mouse button of an X11 button number other than the wheel.
pub open spec fn button_for(detail: u8) -> Option<PointerButton> {
    match detail {
        1 => Some(PointerButton::Primary),
        2 => Some(PointerButton::Middle),
        3 => Some(PointerButton::Secondary),
        8 => Some(PointerButton::Extra1),
        9 => Some(PointerButton::Extra2),
        _ => None,
    }
}

/// The user-interface event of an X11 button press or release.
pub open spec fn pointer_event(
    event_x: i16,
    event_y: i16,
    detail: u8,
    modifiers: Modifiers,
    pressed: bool,
) -> PointerEvent {
    if is_scroll_button(detail) {
        let (dx, dy) = scroll_delta(detail, modifiers.shift);
        PointerEvent::Scroll { dx: dx as i32, dy: dy as i32 }
    } else {
        match button_for(detail) {
            Some(button) => PointerEvent::Button { x: event_x, y: event_y, button, pressed, modifiers },
            None => PointerEvent::Ignored,
        }
    }
}

/// Translates an X11 button press (`pressed`) or release into a user-interface
/// event, following winit's X11 event processor.
pub fn handle(event_x: i16, event_y: i16, detail: u8, modifiers: Modifiers, pressed: bool) -> (event:
    PointerEvent)
    ensures
        event == pointer_event(event_x, event_y, detail, modifiers, pressed),
{
    if 4 <= detail && detail <= 7 {
        let scroll_unit = SCROLL_UNIT;
        let (dx, dy) = match detail {
            4 if modifiers.shift => (scroll_unit, 0),
            5 if modifiers.shift => (-scroll_unit, 0),
            4 => (0, scroll_unit),
            5 => (0, -scroll_unit),
            6 => (scroll_unit, 0),
            _ => (-scroll_unit, 0),
        };
        PointerEvent::Scroll { dx, dy }
    } else {
        let button = match detail {
            1 => PointerButton::Primary,
            2 => PointerButton::Middle,
            3 => PointerButton::Secondary,
            8 => PointerButton::Extra1,  // back
            9 => PointerButton::Extra2,  // forward
            _ => return PointerEvent::Ignored,
        };
        PointerEvent::Button { x: event_x, y: event_y, button, pressed, modifiers }
    }
}

/// The two wheel directions of each axis scroll by opposite amounts, and
/// holding shift turns the vertical wheel into the horizontal one.
pub proof fn lemma_scroll_directions(shift: bool)
    ensures
        scroll_delta(5, shift).0 == -scroll_delta(4, shift).0,
        scroll_delta(5, shift).1 == -scroll_delta(4, shift).1,
        scroll_delta(7, shift).0 == -scroll_delta(6, shift).0,
        scroll_delta(7, shift).1 == scroll_delta(6, shift).1,
        scroll_delta(4, true) == (scroll_delta(4, false).1, scroll_delta(4, false).0),
        scroll_delta(4, shift).0 * scroll_delta(4, shift).1 == 0,
{
}

/// A press or release of a mouse button is reported as a press or release of
/// that button, where it happened, with the modifiers held: X11 buttons 1, 2,
/// 3, 8 and 9 are the primary, middle, secondary, back and forward buttons. A
/// wheel "button" is a scroll of ten points along one axis, the same on press
/// and release; other buttons are ignored.
pub proof fn lemma_pointer_event_reports_the_input(
    x: i16,
    y: i16,
    detail: u8,
    modifiers: Modifiers,
    pressed: bool,
)
    ensures
        detail == 1 ==> pointer_event(x, y, detail, modifiers, pressed) == (PointerEvent::Button {
            x,
            y,
            button: PointerButton::Primary,
            pressed,
            modifiers,
        }),
        detail == 2 ==> pointer_event(x, y, detail, modifiers, pressed) == (PointerEvent::Button {
            x,
            y,
            button: PointerButton::Middle,
            pressed,
            modifiers,
        }),
        detail == 3 ==> pointer_event(x, y, detail, modifiers, pressed) == (PointerEvent::Button {
            x,
            y,
            button: PointerButton::Secondary,
            pressed,
            modifiers,
        }),
        detail == 8 ==> pointer_event(x, y, detail, modifiers, pressed) == (PointerEvent::Button {
            x,
            y,
            button: PointerButton::Extra1,
            pressed,
            modifiers,
        }),
        detail == 9 ==> pointer_event(x, y, detail, modifiers, pressed) == (PointerEvent::Button {
            x,
            y,
            button: PointerButton::Extra2,
            pressed,
            modifiers,
        }),
        pointer_event(x, y, detail, modifiers, pressed) matches PointerEvent::Button { x: ex, y: ey, pressed: p, modifiers: m, .. }
            ==> ex == x && ey == y && p == pressed && m == modifiers,
        4 <= detail <= 7 ==> pointer_event(x, y, detail, modifiers, pressed) == pointer_event(
            x,
            y,
            detail,
            modifiers,
            !pressed,
        ),
        pointer_event(x, y, detail, modifiers, pressed) matches PointerEvent::Scroll { dx, dy } ==> {
            &&& 4 <= detail <= 7
            &&& (dx == 0 && (dy == 10 || dy == -10)) || (dy == 0 && (dx == 10 || dx == -10))
        },
        detail == 4 && !modifiers.shift ==> pointer_event(x, y, detail, modifiers, pressed)
            == (PointerEvent::Scroll { dx: 0, dy: 10 }),
        detail == 5 && !modifiers.shift ==> pointer_event(x, y, detail, modifiers, pressed)
            == (PointerEvent::Scroll { dx: 0, dy: -10i32 }),
        detail == 4 && modifiers.shift ==> pointer_event(x, y, detail, modifiers, pressed)
            == (PointerEvent::Scroll { dx: 10, dy: 0 }),
        detail == 5 && modifiers.shift ==> pointer_event(x, y, detail, modifiers, pressed)
            == (PointerEvent::Scroll { dx: -10i32, dy: 0 }),
        detail == 6 ==> pointer_event(x, y, detail, modifiers, pressed) == (PointerEvent::Scroll {
            dx: 10,
            dy: 0,
        }),
        detail == 7 ==> pointer_event(x, y, detail, modifiers, pressed) == (PointerEvent::Scroll {
            dx: -10i32,
            dy: 0,
        }),
        (detail == 0 || 10 <= detail) ==> pointer_event(x, y, detail, modifiers, pressed)
            == PointerEvent::Ignored,
{
}

} // verus!
